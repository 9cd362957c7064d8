use vstd::prelude::*;
use vstd::string::StringExecFns;

use crate::git::auth::{collect_cleanup, merge_auth_env, EnvMap, PreparedAuth};
use crate::git::models::{
    GitBranchRequest, GitCheckoutRequest, GitCommandConfig, GitCommandOutcome,
    GitCommandOutcomeView, GitCommitDetailsRequest, GitCommitRequest, GitDeleteBranchRequest,
    GitError, GitErrorResponse, GitErrorView, GitRepositoryRequest, GitStageRequest, GitStashApplyRequest,
    GitStashPushRequest, GitSwitchResponse,
};
use crate::git::util::{sanitize_arg, sanitized};
use crate::text::{
    chars_of, is_blank, join_words, joined, str_is_blank, string_of, stripped, trim,
};

verus! {

/// Either the arguments of a command or the text of the refusal.
pub type Arguments = Result<Seq<Seq<char>>, Seq<char>>;

/// Whether what was built is what was specified.
pub open spec fn built(r: Result<Vec<String>, GitErrorResponse>, wanted: Arguments) -> bool {
    match r {
        Ok(args) => wanted == Ok::<Seq<Seq<char>>, Seq<char>>(args.deep_view()),
        Err(e) => wanted == Err::<Seq<Seq<char>>, Seq<char>>(e.message@),
    }
}

/// `args` with `value` at its end where `value` passes the check, else the
/// text of the error.
pub open spec fn with_checked(args: Seq<Seq<char>>, value: Seq<char>, field: Seq<char>)
    -> Arguments {
    match sanitized(value, field) {
        Ok(v) => Ok(args.push(v)),
        Err(e) => Err(e.message()),
    }
}

/// `args` with each of `values` at its end where all pass the check, else
/// the text of the error for the first that does not.
pub open spec fn with_all_checked(args: Seq<Seq<char>>, values: Seq<Seq<char>>, field: Seq<char>)
    -> Arguments
    decreases values.len(),
{
    if values.len() == 0 {
        Ok(args)
    } else {
        match with_all_checked(args, values.drop_last(), field) {
            Ok(head) => with_checked(head, values.last(), field),
            Err(m) => Err(m),
        }
    }
}

/// Appends a checked argument.
pub fn push_checked(args: Vec<String>, value: &str, field: &str) -> (r: Result<
    Vec<String>,
    GitErrorResponse,
>)
    ensures
        built(r, with_checked(args.deep_view(), value@, field@)),
{
    let mut args = args;
    let ghost before = args.deep_view();
    match sanitize_arg(value, field) {
        Ok(v) => {
            args.push(v);
            assert(args.deep_view() =~= before.push(v@));
            Ok(args)
        },
        Err(e) => Err(GitErrorResponse::from(e)),
    }
}

/// Appends checked arguments.
pub fn push_all_checked(args: Vec<String>, values: &Vec<String>, field: &str) -> (r: Result<
    Vec<String>,
    GitErrorResponse,
>)
    ensures
        built(r, with_all_checked(args.deep_view(), values.deep_view(), field@)),
{
    let ghost start = args.deep_view();
    let ghost all = values.deep_view();
    let mut out = args;
    let mut i: usize = 0;
    while i < values.len()
        invariant
            i <= values@.len(),
            all == values.deep_view(),
            start == args.deep_view(),
            with_all_checked(start, all.take(i as int), field@) == Ok::<Seq<Seq<char>>, Seq<char>>(
                out.deep_view(),
            ),
        decreases values@.len() - i,
    {
        proof {
            assert(all.take(i + 1).drop_last() =~= all.take(i as int));
            assert(all.take(i + 1).last() == values@[i as int]@);
        }
        match push_checked(out, values[i].as_str(), field) {
            Ok(next) => {
                out = next;
            },
            Err(e) => {
                proof {
                    lemma_refusal_stays(start, all, field@, i + 1);
                }
                return Err(e);
            },
        }
        i += 1;
    }
    proof {
        assert(all.take(values@.len() as int) =~= all);
    }
    Ok(out)
}

/// Once a value is refused, the whole list is refused with the same text.
pub proof fn lemma_refusal_stays(args: Seq<Seq<char>>, values: Seq<Seq<char>>, field: Seq<char>, n: int)
    requires
        0 <= n <= values.len(),
        with_all_checked(args, values.take(n), field) is Err,
    ensures
        with_all_checked(args, values, field) == with_all_checked(args, values.take(n), field),
    decreases values.len() - n,
{
    if n < values.len() {
        assert(values.take(n + 1).drop_last() =~= values.take(n));
        lemma_refusal_stays(args, values, field, n + 1);
    } else {
        assert(values.take(n) =~= values);
    }
}

/// The arguments that ask for the status report.
pub open spec fn status_arguments() -> Seq<Seq<char>> {
    seq!["status"@, "--branch"@, "--porcelain=v1"@, "-z"@]
}

/// Builds the arguments that ask for the status report.
pub fn status_args() -> (r: Vec<String>)
    ensures
        r.deep_view() == status_arguments(),
{
    let mut args: Vec<String> = Vec::new();
    args.push(String::from_str("status"));
    args.push(String::from_str("--branch"));
    args.push(String::from_str("--porcelain=v1"));
    args.push(String::from_str("-z"));
    assert(args.deep_view() =~= status_arguments());
    args
}

/// The arguments that stage paths: at least one path, each checked.
pub open spec fn stage_arguments(paths: Seq<Seq<char>>) -> Arguments {
    if paths.len() == 0 {
        Err("no paths provided"@)
    } else {
        with_all_checked(seq!["add"@, "--"@], paths, "path"@)
    }
}

/// Builds the arguments that stage the paths of a request.
pub fn stage_args(request: &GitStageRequest) -> (r: Result<Vec<String>, GitErrorResponse>)
    ensures
        built(r, stage_arguments(request.paths.deep_view())),
{
    if request.paths.len() == 0 {
        return Err(GitErrorResponse { message: String::from_str("no paths provided") });
    }
    let mut args: Vec<String> = Vec::new();
    args.push(String::from_str("add"));
    args.push(String::from_str("--"));
    assert(args.deep_view() =~= seq!["add"@, "--"@]);
    push_all_checked(args, &request.paths, "path")
}

/// The arguments that unstage paths: at least one path, each checked.
pub open spec fn unstage_arguments(paths: Seq<Seq<char>>) -> Arguments {
    if paths.len() == 0 {
        Err("no paths provided"@)
    } else {
        with_all_checked(seq!["restore"@, "--staged"@, "--"@], paths, "path"@)
    }
}

/// Builds the arguments that unstage the paths of a request.
pub fn unstage_args(request: &GitStageRequest) -> (r: Result<Vec<String>, GitErrorResponse>)
    ensures
        built(r, unstage_arguments(request.paths.deep_view())),
{
    if request.paths.len() == 0 {
        return Err(GitErrorResponse { message: String::from_str("no paths provided") });
    }
    let mut args: Vec<String> = Vec::new();
    args.push(String::from_str("restore"));
    args.push(String::from_str("--staged"));
    args.push(String::from_str("--"));
    assert(args.deep_view() =~= seq!["restore"@, "--staged"@, "--"@]);
    push_all_checked(args, &request.paths, "path")
}

/// The arguments that commit with a message, which may not be blank.
pub open spec fn commit_arguments(message: Seq<char>) -> Arguments {
    if is_blank(message) {
        Err("commit message cannot be empty"@)
    } else {
        with_checked(seq!["commit"@, "-m"@], message, "message"@)
    }
}

/// Builds the arguments that commit with the message of a request.
pub fn commit_args(request: &GitCommitRequest) -> (r: Result<Vec<String>, GitErrorResponse>)
    ensures
        built(r, commit_arguments(request.message@)),
{
    if str_is_blank(request.message.as_str()) {
        return Err(
            GitErrorResponse { message: String::from_str("commit message cannot be empty") },
        );
    }
    let mut args: Vec<String> = Vec::new();
    args.push(String::from_str("commit"));
    args.push(String::from_str("-m"));
    assert(args.deep_view() =~= seq!["commit"@, "-m"@]);
    push_checked(args, request.message.as_str(), "message")
}

/// The arguments that ask for the history graph of the last 200 commits.
pub open spec fn graph_arguments() -> Seq<Seq<char>> {
    seq!["log"@, "--date=iso-strict"@, "--pretty=format:%H|%P|%an|%ad|%s"@, "-n"@, "200"@]
}

/// Builds the arguments that ask for the history graph.
pub fn graph_args() -> (r: Vec<String>)
    ensures
        r.deep_view() == graph_arguments(),
{
    let mut args: Vec<String> = Vec::new();
    args.push(String::from_str("log"));
    args.push(String::from_str("--date=iso-strict"));
    args.push(String::from_str("--pretty=format:%H|%P|%an|%ad|%s"));
    args.push(String::from_str("-n"));
    args.push(String::from_str("200"));
    assert(args.deep_view() =~= graph_arguments());
    args
}

/// The arguments that show one commit.
pub open spec fn commit_details_arguments(commit: Seq<char>) -> Arguments {
    with_checked(
        seq![
            "show"@,
            "--name-status"@,
            "--date=iso-strict"@,
            "--pretty=format:%H%n%an%n%ad%n%B"@,
            "--no-color"@,
        ],
        commit,
        "commit"@,
    )
}

/// Builds the arguments that show the commit of a request.
pub fn commit_details_args(request: &GitCommitDetailsRequest) -> (r: Result<
    Vec<String>,
    GitErrorResponse,
>)
    ensures
        built(r, commit_details_arguments(request.commit@)),
{
    let mut args: Vec<String> = Vec::new();
    args.push(String::from_str("show"));
    args.push(String::from_str("--name-status"));
    args.push(String::from_str("--date=iso-strict"));
    args.push(String::from_str("--pretty=format:%H%n%an%n%ad%n%B"));
    args.push(String::from_str("--no-color"));
    assert(args.deep_view() =~= seq![
        "show"@,
        "--name-status"@,
        "--date=iso-strict"@,
        "--pretty=format:%H%n%an%n%ad%n%B"@,
        "--no-color"@,
    ]);
    push_checked(args, request.commit.as_str(), "commit")
}

/// The arguments that ask for the short log of the last 100 commits.
pub open spec fn log_arguments() -> Seq<Seq<char>> {
    seq!["log"@, "--oneline"@, "--decorate"@, "-n"@, "100"@, "--no-color"@]
}

/// Builds the arguments that ask for the short log.
pub fn log_args() -> (r: Vec<String>)
    ensures
        r.deep_view() == log_arguments(),
{
    let mut args: Vec<String> = Vec::new();
    args.push(String::from_str("log"));
    args.push(String::from_str("--oneline"));
    args.push(String::from_str("--decorate"));
    args.push(String::from_str("-n"));
    args.push(String::from_str("100"));
    args.push(String::from_str("--no-color"));
    assert(args.deep_view() =~= log_arguments());
    args
}

/// The arguments that list all branches.
pub open spec fn branches_arguments() -> Seq<Seq<char>> {
    seq!["branch"@, "-a"@, "--no-color"@]
}

/// Builds the arguments that list all branches.
pub fn branches_args() -> (r: Vec<String>)
    ensures
        r.deep_view() == branches_arguments(),
{
    let mut args: Vec<String> = Vec::new();
    args.push(String::from_str("branch"));
    args.push(String::from_str("-a"));
    args.push(String::from_str("--no-color"));
    assert(args.deep_view() =~= branches_arguments());
    args
}

/// Whether an optional switch is set.
pub open spec fn flag(value: Option<bool>) -> bool {
    value == Some(true)
}

fn flag_set(value: Option<bool>) -> (r: bool)
    ensures
        r == flag(value),
{
    match value {
        Some(b) => b,
        None => false,
    }
}

/// The arguments that switch to a branch: `-c` where it is to be created,
/// `--track` where it is to track, then the checked name.
pub open spec fn switch_arguments(branch: Seq<char>, create: Option<bool>, track: Option<bool>)
    -> Arguments {
    let first = if flag(create) {
        seq!["switch"@, "-c"@]
    } else {
        seq!["switch"@]
    };
    let second = if flag(track) {
        first.push("--track"@)
    } else {
        first
    };
    with_checked(second, branch, "branch"@)
}

/// Builds the arguments that switch to the branch of a request.
pub fn switch_branch_args(request: &GitBranchRequest) -> (r: Result<Vec<String>, GitErrorResponse>)
    ensures
        built(r, switch_arguments(request.branch@, request.create, request.track)),
{
    let mut args: Vec<String> = Vec::new();
    args.push(String::from_str("switch"));
    assert(args.deep_view() =~= seq!["switch"@]);
    if flag_set(request.create) {
        args.push(String::from_str("-c"));
        assert(args.deep_view() =~= seq!["switch"@, "-c"@]);
    }
    if flag_set(request.track) {
        let ghost before = args.deep_view();
        args.push(String::from_str("--track"));
        assert(args.deep_view() =~= before.push("--track"@));
    }
    push_checked(args, request.branch.as_str(), "branch")
}

/// The arguments that delete a branch, by force or not.
pub open spec fn delete_branch_arguments(branch: Seq<char>, force: Option<bool>) -> Arguments {
    with_checked(
        if flag(force) {
            seq!["branch"@, "-D"@]
        } else {
            seq!["branch"@, "-d"@]
        },
        branch,
        "branch"@,
    )
}

/// Builds the arguments that delete the branch of a request.
pub fn delete_branch_args(request: &GitDeleteBranchRequest) -> (r: Result<
    Vec<String>,
    GitErrorResponse,
>)
    ensures
        built(r, delete_branch_arguments(request.branch@, request.force)),
{
    let mut args: Vec<String> = Vec::new();
    args.push(String::from_str("branch"));
    if flag_set(request.force) {
        args.push(String::from_str("-D"));
        assert(args.deep_view() =~= seq!["branch"@, "-D"@]);
    } else {
        args.push(String::from_str("-d"));
        assert(args.deep_view() =~= seq!["branch"@, "-d"@]);
    }
    push_checked(args, request.branch.as_str(), "branch")
}

/// The arguments that check a target out.
pub open spec fn checkout_arguments(target: Seq<char>) -> Arguments {
    with_checked(seq!["checkout"@], target, "target"@)
}

/// Builds the arguments that check the target of a request out.
pub fn checkout_args(request: &GitCheckoutRequest) -> (r: Result<Vec<String>, GitErrorResponse>)
    ensures
        built(r, checkout_arguments(request.target@)),
{
    let mut args: Vec<String> = Vec::new();
    args.push(String::from_str("checkout"));
    assert(args.deep_view() =~= seq!["checkout"@]);
    push_checked(args, request.target.as_str(), "target")
}

/// The arguments that list the stashes, four fields to a line with the unit
/// separator between them.
pub open spec fn stash_list_arguments() -> Seq<Seq<char>> {
    seq!["stash"@, "list"@, "--pretty=format:%H%x1f%gd%x1f%cr%x1f%s"@]
}

/// Builds the arguments that list the stashes.
pub fn stash_list_args() -> (r: Vec<String>)
    ensures
        r.deep_view() == stash_list_arguments(),
{
    let mut args: Vec<String> = Vec::new();
    args.push(String::from_str("stash"));
    args.push(String::from_str("list"));
    args.push(String::from_str("--pretty=format:%H%x1f%gd%x1f%cr%x1f%s"));
    assert(args.deep_view() =~= stash_list_arguments());
    args
}

/// The arguments that stash the changes: `-u` where untracked files are to
/// go along, `-m` and the checked message where there is one.
pub open spec fn stash_push_arguments(message: Option<Seq<char>>, include_untracked: Option<bool>)
    -> Arguments {
    let first = if flag(include_untracked) {
        seq!["stash"@, "push"@, "-u"@]
    } else {
        seq!["stash"@, "push"@]
    };
    match message {
        Some(m) => with_checked(first.push("-m"@), m, "message"@),
        None => Ok(first),
    }
}

/// Builds the arguments that stash the changes as a request asks.
pub fn stash_push_args(request: &GitStashPushRequest) -> (r: Result<Vec<String>, GitErrorResponse>)
    ensures
        built(
            r,
            stash_push_arguments(request.message.deep_view(), request.include_untracked),
        ),
{
    let mut args: Vec<String> = Vec::new();
    args.push(String::from_str("stash"));
    args.push(String::from_str("push"));
    assert(args.deep_view() =~= seq!["stash"@, "push"@]);
    if flag_set(request.include_untracked) {
        args.push(String::from_str("-u"));
        assert(args.deep_view() =~= seq!["stash"@, "push"@, "-u"@]);
    }
    match &request.message {
        Some(message) => {
            let ghost before = args.deep_view();
            args.push(String::from_str("-m"));
            assert(args.deep_view() =~= before.push("-m"@));
            push_checked(args, message.as_str(), "message")
        },
        None => Ok(args),
    }
}

/// The arguments that apply a stash, or pop it where it is to be dropped;
/// the checked name of the stash follows where there is one.
pub open spec fn stash_apply_arguments(name: Option<Seq<char>>, drop: Option<bool>) -> Arguments {
    let first = if flag(drop) {
        seq!["stash"@, "pop"@]
    } else {
        seq!["stash"@, "apply"@]
    };
    match name {
        Some(n) => with_checked(first, n, "name"@),
        None => Ok(first),
    }
}

/// Builds the arguments that apply or pop a stash as a request asks.
pub fn stash_apply_args(request: &GitStashApplyRequest) -> (r: Result<Vec<String>, GitErrorResponse>)
    ensures
        built(r, stash_apply_arguments(request.name.deep_view(), request.drop)),
{
    let mut args: Vec<String> = Vec::new();
    args.push(String::from_str("stash"));
    if flag_set(request.drop) {
        args.push(String::from_str("pop"));
        assert(args.deep_view() =~= seq!["stash"@, "pop"@]);
    } else {
        args.push(String::from_str("apply"));
        assert(args.deep_view() =~= seq!["stash"@, "apply"@]);
    }
    match &request.name {
        Some(name) => push_checked(args, name.as_str(), "name"),
        None => Ok(args),
    }
}

/// The arguments that list the remotes with their addresses.
pub open spec fn remote_list_arguments() -> Seq<Seq<char>> {
    seq!["remote"@, "-v"@]
}

/// Builds the arguments that list the remotes.
pub fn remote_list_args() -> (r: Vec<String>)
    ensures
        r.deep_view() == remote_list_arguments(),
{
    let mut args: Vec<String> = Vec::new();
    args.push(String::from_str("remote"));
    args.push(String::from_str("-v"));
    assert(args.deep_view() =~= remote_list_arguments());
    args
}

/// The arguments that fetch from all remotes, before remote and branch.
pub open spec fn fetch_all_arguments() -> Seq<Seq<char>> {
    seq!["fetch"@, "--all"@]
}

/// Builds the arguments that fetch from all remotes.
pub fn fetch_all_args() -> (r: Vec<String>)
    ensures
        r.deep_view() == fetch_all_arguments(),
{
    let mut args: Vec<String> = Vec::new();
    args.push(String::from_str("fetch"));
    args.push(String::from_str("--all"));
    assert(args.deep_view() =~= fetch_all_arguments());
    args
}

/// The arguments that pull, before remote and branch.
pub open spec fn pull_arguments() -> Seq<Seq<char>> {
    seq!["pull"@]
}

/// Builds the arguments that pull.
pub fn pull_args() -> (r: Vec<String>)
    ensures
        r.deep_view() == pull_arguments(),
{
    let mut args: Vec<String> = Vec::new();
    args.push(String::from_str("pull"));
    assert(args.deep_view() =~= pull_arguments());
    args
}

/// The arguments that push, before remote and branch.
pub open spec fn push_arguments() -> Seq<Seq<char>> {
    seq!["push"@]
}

/// Builds the arguments that push.
pub fn push_args() -> (r: Vec<String>)
    ensures
        r.deep_view() == push_arguments(),
{
    let mut args: Vec<String> = Vec::new();
    args.push(String::from_str("push"));
    assert(args.deep_view() =~= push_arguments());
    args
}

/// The words of the command line after the program: the prefix arguments of
/// the executable, then the arguments of the command.
pub fn command_line(config: &GitCommandConfig, args: &Vec<String>) -> (r: Vec<String>)
    ensures
        r.deep_view() == config.executable.prefix_args.deep_view() + args.deep_view(),
{
    let mut out: Vec<String> = Vec::new();
    let ghost prefix = config.executable.prefix_args.deep_view();
    let mut i: usize = 0;
    while i < config.executable.prefix_args.len()
        invariant
            i <= config.executable.prefix_args@.len(),
            prefix == config.executable.prefix_args.deep_view(),
            out.deep_view() =~= prefix.take(i as int),
        decreases config.executable.prefix_args@.len() - i,
    {
        let ghost before = out.deep_view();
        let word = config.executable.prefix_args[i].clone();
        out.push(word);
        assert(out.deep_view() =~= before.push(word@));
        i += 1;
    }
    let mut j: usize = 0;
    while j < args.len()
        invariant
            j <= args@.len(),
            prefix == config.executable.prefix_args.deep_view(),
            out.deep_view() =~= prefix + args.deep_view().take(j as int),
        decreases args@.len() - j,
    {
        let ghost before = out.deep_view();
        let word = args[j].clone();
        out.push(word);
        assert(out.deep_view() =~= before.push(word@));
        j += 1;
    }
    assert(args.deep_view().take(args@.len() as int) =~= args.deep_view());
    out
}

/// What a command left behind, from its exit code and what it wrote: it
/// succeeded exactly where the code is zero, and both texts are taken
/// without the white space around them.
pub open spec fn outcome_of(exit_code: Option<i32>, stdout: Seq<char>, stderr: Seq<char>)
    -> GitCommandOutcomeView {
    GitCommandOutcomeView {
        exit_code,
        success: exit_code == Some(0i32),
        stdout: stripped(stdout),
        stderr: stripped(stderr),
    }
}

/// Puts together what a command left behind.
pub fn capture_outcome(exit_code: Option<i32>, stdout: &str, stderr: &str) -> (r:
    GitCommandOutcome)
    ensures
        r.deep_view() == outcome_of(exit_code, stdout@, stderr@),
{
    let out = chars_of(stdout);
    let err = chars_of(stderr);
    let success = match exit_code {
        Some(code) => code == 0,
        None => false,
    };
    GitCommandOutcome {
        exit_code,
        success,
        stdout: string_of(trim(out.as_slice())),
        stderr: string_of(trim(err.as_slice())),
    }
}

/// The branch that a command acted on where it succeeded; else what it
/// wrote to standard error, or `fallback` where it wrote nothing.
pub fn branch_result(outcome: GitCommandOutcome, branch: String, fallback: &str) -> (r: Result<
    GitSwitchResponse,
    GitErrorResponse,
>)
    ensures
        outcome.success ==> r is Ok && r->Ok_0.branch@ == branch@,
        !outcome.success ==> r is Err && r->Err_0.message@ == if outcome.stderr@.len() == 0 {
            fallback@
        } else {
            outcome.stderr@
        },
{
    if !outcome.success {
        let message = if outcome.stderr.as_str().is_empty() {
            String::from_str(fallback)
        } else {
            outcome.stderr
        };
        return Err(GitErrorResponse { message });
    }
    Ok(GitSwitchResponse { branch })
}

/// The text of the refusal where a switch failed without saying why.
pub const SWITCH_FAILED: &'static str = "failed to switch branch";

/// The text of the refusal where a deletion failed without saying why.
pub const DELETE_FAILED: &'static str = "failed to delete branch";

/// The text of the refusal where a checkout failed without saying why.
pub const CHECKOUT_FAILED: &'static str = "failed to checkout target";

/// The exit code as a number: minus one where the process had none.
pub fn exit_code_or_minus_one(code: Option<i32>) -> (r: i32)
    ensures
        r == match code {
            Some(c) => c,
            None => -1i32,
        },
{
    match code {
        Some(c) => c,
        None => -1,
    }
}

/// The error for a failure to start the process.
pub fn spawn_failure(reason: String) -> (r: GitError)
    ensures
        r.deep_view() == GitErrorView::Spawn(reason@),
{
    GitError::Spawn(reason)
}

/// One process to start: the program, its arguments, the directory it runs
/// in, the variables added to its environment, and the handles of the files
/// that have to stay until it has exited.
#[derive(Debug)]
pub struct Invocation {
    pub program: String,
    pub args: Vec<String>,
    pub working_dir: String,
    pub env: EnvMap,
    pub cleanup: Vec<tempfile::TempPath>,
}

/// Puts one invocation together: the prefix arguments of the executable come
/// before the arguments of the command, and the credentials, where there are
/// any, give the variables and the cleanup handles.
pub fn plan_invocation(config: GitCommandConfig, args: Vec<String>, auth: Option<PreparedAuth>) -> (r:
    Invocation)
    ensures
        r.program@ == config.executable.program@,
        r.args.deep_view() == config.executable.prefix_args.deep_view() + args.deep_view(),
        r.working_dir@ == config.working_dir@,
        r.env@ == match auth {
            Some(prepared) => prepared.env@,
            None => Map::<Seq<char>, Seq<char>>::empty(),
        },
        r.cleanup@ == match auth {
            Some(prepared) => prepared.cleanup@,
            None => Seq::<tempfile::TempPath>::empty(),
        },
{
    let words = command_line(&config, &args);
    let mut env = EnvMap::new();
    let mut cleanup: Vec<tempfile::TempPath> = Vec::new();
    match auth {
        Some(prepared) => {
            env = merge_auth_env(env, &prepared.env);
            cleanup = collect_cleanup(cleanup, prepared.cleanup);
            assert(env@ =~= prepared.env@);
            assert(cleanup@ =~= prepared.cleanup@);
        },
        None => {},
    }
    Invocation {
        program: config.executable.program,
        args: words,
        working_dir: config.working_dir,
        env,
        cleanup,
    }
}

/// How the attempt to run a process to its end went.
#[derive(Debug)]
pub enum ProcessResult {
    /// The process ran and exited; what it wrote is given as text.
    Exited { code: Option<i32>, stdout: String, stderr: String },
    /// The process could not be started; the text says why.
    NotStarted(String),
}

/// What is left of a capture run.
#[derive(Debug)]
pub struct CaptureEnd {
    /// The outcome of the command, or the failure to start it.
    pub outcome: Result<GitCommandOutcome, GitError>,
    /// The cleanup handles to release now.
    pub release: Vec<tempfile::TempPath>,
}

/// Ends a capture run. A process that exited gives an outcome, whatever its
/// exit code; only a process that did not start gives an error. The cleanup
/// handles are released either way.
pub fn finish_capture(cleanup: Vec<tempfile::TempPath>, result: ProcessResult) -> (r: CaptureEnd)
    ensures
        r.release@ == cleanup@,
        match result {
            ProcessResult::Exited { code, stdout, stderr } => r.outcome is Ok
                && r.outcome->Ok_0.deep_view() == outcome_of(code, stdout@, stderr@),
            ProcessResult::NotStarted(reason) => r.outcome is Err && r.outcome->Err_0.deep_view()
                == GitErrorView::Spawn(reason@),
        },
{
    let outcome = match result {
        ProcessResult::Exited { code, stdout, stderr } => Ok(
            capture_outcome(code, stdout.as_str(), stderr.as_str()),
        ),
        ProcessResult::NotStarted(reason) => Err(spawn_failure(reason)),
    };
    CaptureEnd { outcome, release: cleanup }
}

/// The repository path of a request; a request without one is refused.
pub fn required_repository_path(request: GitRepositoryRequest) -> (r: Result<
    String,
    GitErrorResponse,
>)
    ensures
        match request.repository_path {
            Some(path) => r is Ok && r->Ok_0@ == path@,
            None => r is Err && r->Err_0.message@ == "repository_path is required"@,
        },
{
    match request.repository_path {
        Some(path) => Ok(path),
        None => Err(GitErrorResponse { message: String::from_str("repository_path is required") }),
    }
}

/// The text that reports a failed run of the tool with the caller's own
/// arguments.
pub open spec fn run_failure_text(args: Seq<Seq<char>>, cwd: Seq<char>, reason: Seq<char>) -> Seq<
    char,
> {
    "git:err run "@ + joined(args, seq![' ']) + " @ "@ + cwd + " -> "@ + reason
}

/// Writes the text that reports a failed run of the tool.
pub fn run_failure(args: &Vec<String>, cwd: &str, reason: &str) -> (r: String)
    ensures
        r@ == run_failure_text(args.deep_view(), cwd@, reason@),
{
    let words = join_words(args);
    String::from_str("git:err run ").concat(words.as_str()).concat(" @ ").concat(cwd).concat(
        " -> ",
    ).concat(reason)
}

} // verus!
