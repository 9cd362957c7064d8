use desktop_lib::error::AppError;
use desktop_lib::git::models::GitRepositoryRequest;
use desktop_lib::git::operations::{required_repository_path, run_failure};
use desktop_lib::setup::{database_url, ping_reply, DATABASE_FILE};
use desktop_lib::fs::{describe_change, describe_event_kind, should_emit, ChangeKind};
use desktop_lib::git::models::{
    GitBranchRequest, GitCheckoutRequest, GitCommandConfig, GitCommitDetailsRequest,
    GitCommitRequest, GitDeleteBranchRequest, GitError, GitExecutable, GitStageRequest,
    GitStashApplyRequest, GitStashPushRequest, GitStreamEventKind,
};
use desktop_lib::git::operations::{
    branch_result, branches_args, capture_outcome, checkout_args, command_line,
    commit_args, commit_details_args, delete_branch_args, exit_code_or_minus_one, fetch_all_args,
    graph_args, log_args, pull_args, push_args, remote_list_args, stage_args, stash_apply_args,
    stash_list_args, stash_push_args, status_args, switch_branch_args, unstage_args,
    CHECKOUT_FAILED, DELETE_FAILED, SWITCH_FAILED,
};
use desktop_lib::git::streaming::{
    choose_command_id, command_id_or_fresh, stream_args, ProcessEvent, StreamRunner,
    StreamState, STREAM_EVENT,
};

fn strings(items: &[&str]) -> Vec<String> {
    items.iter().map(|s| s.to_string()).collect()
}

fn temp_handle() -> tempfile::TempPath {
    tempfile::NamedTempFile::new().expect("temp file").into_temp_path()
}

#[test]
fn spawn_failure_gives_one_error_event() {
    let mut runner = StreamRunner::new("id-1".to_string(), vec![temp_handle()]);
    assert_eq!(runner.handle().command_id, "id-1");
    let step = runner.step(ProcessEvent::SpawnFailed("no such file".to_string()));
    let event = step.event.expect("error event");
    assert_eq!(event.command_id, "id-1");
    assert_eq!(event.kind, GitStreamEventKind::Error);
    assert_eq!(event.data.as_deref(), Some("no such file"));
    assert_eq!(event.exit_code, None);
    assert_eq!(event.success, None);
    assert_eq!(step.release.len(), 1);
    assert_eq!(runner.current_state(), StreamState::SpawnFailed);
    for later in [
        ProcessEvent::Stdout("x".to_string()),
        ProcessEvent::Stderr("y".to_string()),
        ProcessEvent::Terminated(Some(0)),
        ProcessEvent::Error("z".to_string()),
        ProcessEvent::Spawned,
    ] {
        let step = runner.step(later);
        assert!(step.event.is_none());
        assert!(step.release.is_empty());
    }
}

#[test]
fn clean_exit_gives_output_then_one_completion() {
    let mut runner = StreamRunner::new("id-2".to_string(), vec![temp_handle(), temp_handle()]);
    assert_eq!(runner.current_state(), StreamState::Spawning);
    let step = runner.step(ProcessEvent::Spawned);
    assert!(step.event.is_none());
    assert!(step.release.is_empty());
    assert_eq!(runner.current_state(), StreamState::Running);
    let step = runner.step(ProcessEvent::Stdout("one".to_string()));
    let event = step.event.expect("stdout");
    assert_eq!(event.kind, GitStreamEventKind::Stdout);
    assert_eq!(event.data.as_deref(), Some("one"));
    assert_eq!(event.command_id, "id-2");
    assert!(step.release.is_empty());
    let step = runner.step(ProcessEvent::Stderr("two".to_string()));
    let event = step.event.expect("stderr");
    assert_eq!(event.kind, GitStreamEventKind::Stderr);
    assert_eq!(event.data.as_deref(), Some("two"));
    assert!(runner.step(ProcessEvent::Other).event.is_none());
    let step = runner.step(ProcessEvent::Terminated(Some(0)));
    let event = step.event.expect("completed");
    assert_eq!(event.kind, GitStreamEventKind::Completed);
    assert_eq!(event.exit_code, Some(0));
    assert_eq!(event.success, Some(true));
    assert_eq!(event.data, None);
    assert_eq!(step.release.len(), 2);
    assert_eq!(runner.current_state(), StreamState::Completed);
    assert!(runner.current_state().terminal());
    let step = runner.step(ProcessEvent::Terminated(Some(0)));
    assert!(step.event.is_none());
    assert!(step.release.is_empty());
}

#[test]
fn failing_exit_is_a_completion_without_success() {
    let mut runner = StreamRunner::new("id-3".to_string(), vec![]);
    runner.step(ProcessEvent::Spawned);
    let event = runner.step(ProcessEvent::Terminated(Some(128))).event.expect("completed");
    assert_eq!(event.kind, GitStreamEventKind::Completed);
    assert_eq!(event.exit_code, Some(128));
    assert_eq!(event.success, Some(false));
    let mut runner = StreamRunner::new("id-4".to_string(), vec![]);
    runner.step(ProcessEvent::Spawned);
    let event = runner.step(ProcessEvent::Terminated(None)).event.expect("completed");
    assert_eq!(event.exit_code, None);
    assert_eq!(event.success, Some(false));
}

#[test]
fn broken_pipe_closes_with_an_error() {
    let mut runner = StreamRunner::new("id-5".to_string(), vec![temp_handle()]);
    runner.step(ProcessEvent::Spawned);
    let step = runner.step(ProcessEvent::Error("pipe".to_string()));
    let event = step.event.expect("error");
    assert_eq!(event.kind, GitStreamEventKind::Error);
    assert_eq!(event.data.as_deref(), Some("pipe"));
    assert_eq!(step.release.len(), 1);
    assert_eq!(runner.current_state(), StreamState::Failed);
    assert!(runner.step(ProcessEvent::Stdout("late".to_string())).event.is_none());
}

#[test]
fn output_before_the_start_is_not_published() {
    let mut runner = StreamRunner::new("id-6".to_string(), vec![]);
    assert!(runner.step(ProcessEvent::Stdout("early".to_string())).event.is_none());
    assert!(runner.step(ProcessEvent::Terminated(Some(0))).event.is_none());
    assert_eq!(runner.current_state(), StreamState::Spawning);
}

#[test]
fn command_id_is_the_requested_one_or_fresh() {
    assert_eq!(command_id_or_fresh(Some("mine".to_string())), "mine");
    let a = command_id_or_fresh(None);
    let b = command_id_or_fresh(None);
    assert_eq!(a.chars().count(), 36);
    for (i, c) in a.chars().enumerate() {
        if i == 8 || i == 13 || i == 18 || i == 23 {
            assert_eq!(c, '-');
        } else {
            assert!(c.is_ascii_digit() || ('a'..='f').contains(&c), "{:?} at {}", c, i);
        }
    }
    assert_ne!(a, b);
    assert_eq!(choose_command_id(Some("x".to_string()), "y".to_string()), "x");
    assert_eq!(choose_command_id(None, "y".to_string()), "y");
    assert_eq!(STREAM_EVENT, "git://stream");
}

#[test]
fn stream_arguments_are_checked() {
    let args = stream_args(pull_args(), &Some("origin".to_string()), &Some("main".to_string()));
    assert_eq!(args.unwrap(), strings(&["pull", "origin", "main"]));
    let args = stream_args(fetch_all_args(), &None, &None);
    assert_eq!(args.unwrap(), strings(&["fetch", "--all"]));
    let args = stream_args(push_args(), &None, &Some("topic".to_string()));
    assert_eq!(args.unwrap(), strings(&["push", "topic"]));
    match stream_args(push_args(), &Some(String::new()), &Some("a\0".to_string())) {
        Err(GitError::InvalidArgument(m)) => assert_eq!(m, "remote cannot be empty"),
        other => panic!("unexpected {:?}", other),
    }
    match stream_args(push_args(), &Some("origin".to_string()), &Some("a\0".to_string())) {
        Err(GitError::InvalidArgument(m)) => assert_eq!(m, "branch may not contain null bytes"),
        other => panic!("unexpected {:?}", other),
    }
}

#[test]
fn fixed_argument_lists() {
    assert_eq!(status_args(), strings(&["status", "--branch", "--porcelain=v1", "-z"]));
    assert_eq!(
        graph_args(),
        strings(&["log", "--date=iso-strict", "--pretty=format:%H|%P|%an|%ad|%s", "-n", "200"])
    );
    assert_eq!(
        log_args(),
        strings(&["log", "--oneline", "--decorate", "-n", "100", "--no-color"])
    );
    assert_eq!(branches_args(), strings(&["branch", "-a", "--no-color"]));
    assert_eq!(
        stash_list_args(),
        strings(&["stash", "list", "--pretty=format:%H%x1f%gd%x1f%cr%x1f%s"])
    );
    assert_eq!(remote_list_args(), strings(&["remote", "-v"]));
}

#[test]
fn stage_and_unstage_arguments() {
    let request = GitStageRequest { repository_path: "/r".into(), paths: strings(&["a b", "c"]) };
    assert_eq!(stage_args(&request).unwrap(), strings(&["add", "--", "a b", "c"]));
    assert_eq!(unstage_args(&request).unwrap(), strings(&["restore", "--staged", "--", "a b", "c"]));
    let request = GitStageRequest { repository_path: "/r".into(), paths: vec![] };
    assert_eq!(stage_args(&request).unwrap_err().message, "no paths provided");
    assert_eq!(unstage_args(&request).unwrap_err().message, "no paths provided");
    let request = GitStageRequest { repository_path: "/r".into(), paths: strings(&["ok", "", "b\0"]) };
    assert_eq!(stage_args(&request).unwrap_err().message, "invalid argument: path cannot be empty");
    let request = GitStageRequest { repository_path: "/r".into(), paths: strings(&["ok", "b\0", ""]) };
    assert_eq!(
        unstage_args(&request).unwrap_err().message,
        "invalid argument: path may not contain null bytes"
    );
}

#[test]
fn commit_arguments() {
    let request = GitCommitRequest { repository_path: "/r".into(), message: " fix it ".into() };
    assert_eq!(commit_args(&request).unwrap(), strings(&["commit", "-m", " fix it "]));
    let request = GitCommitRequest { repository_path: "/r".into(), message: " \n".into() };
    assert_eq!(commit_args(&request).unwrap_err().message, "commit message cannot be empty");
    let request = GitCommitRequest { repository_path: "/r".into(), message: "a\0".into() };
    assert_eq!(
        commit_args(&request).unwrap_err().message,
        "invalid argument: message may not contain null bytes"
    );
    let request = GitCommitDetailsRequest { repository_path: "/r".into(), commit: "abc".into() };
    assert_eq!(
        commit_details_args(&request).unwrap(),
        strings(&[
            "show",
            "--name-status",
            "--date=iso-strict",
            "--pretty=format:%H%n%an%n%ad%n%B",
            "--no-color",
            "abc"
        ])
    );
    let request = GitCommitDetailsRequest { repository_path: "/r".into(), commit: "".into() };
    assert_eq!(
        commit_details_args(&request).unwrap_err().message,
        "invalid argument: commit cannot be empty"
    );
}

#[test]
fn branch_arguments() {
    let request = GitBranchRequest {
        repository_path: "/r".into(),
        branch: "topic".into(),
        create: Some(true),
        track: Some(true),
    };
    assert_eq!(switch_branch_args(&request).unwrap(), strings(&["switch", "-c", "--track", "topic"]));
    let request = GitBranchRequest {
        repository_path: "/r".into(),
        branch: "topic".into(),
        create: None,
        track: Some(false),
    };
    assert_eq!(switch_branch_args(&request).unwrap(), strings(&["switch", "topic"]));
    let request = GitBranchRequest {
        repository_path: "/r".into(),
        branch: "".into(),
        create: None,
        track: Some(true),
    };
    assert_eq!(
        switch_branch_args(&request).unwrap_err().message,
        "invalid argument: branch cannot be empty"
    );
    let request =
        GitDeleteBranchRequest { repository_path: "/r".into(), branch: "old".into(), force: Some(true) };
    assert_eq!(delete_branch_args(&request).unwrap(), strings(&["branch", "-D", "old"]));
    let request =
        GitDeleteBranchRequest { repository_path: "/r".into(), branch: "old".into(), force: None };
    assert_eq!(delete_branch_args(&request).unwrap(), strings(&["branch", "-d", "old"]));
    let request = GitCheckoutRequest { repository_path: "/r".into(), target: "v1.0".into() };
    assert_eq!(checkout_args(&request).unwrap(), strings(&["checkout", "v1.0"]));
    let request = GitCheckoutRequest { repository_path: "/r".into(), target: "\0".into() };
    assert_eq!(
        checkout_args(&request).unwrap_err().message,
        "invalid argument: target may not contain null bytes"
    );
}

#[test]
fn stash_arguments() {
    let request = GitStashPushRequest {
        repository_path: "/r".into(),
        message: Some("wip".into()),
        include_untracked: Some(true),
    };
    assert_eq!(stash_push_args(&request).unwrap(), strings(&["stash", "push", "-u", "-m", "wip"]));
    let request =
        GitStashPushRequest { repository_path: "/r".into(), message: None, include_untracked: None };
    assert_eq!(stash_push_args(&request).unwrap(), strings(&["stash", "push"]));
    let request = GitStashApplyRequest {
        repository_path: "/r".into(),
        name: Some("stash@{1}".into()),
        drop: Some(true),
    };
    assert_eq!(stash_apply_args(&request).unwrap(), strings(&["stash", "pop", "stash@{1}"]));
    let request = GitStashApplyRequest { repository_path: "/r".into(), name: None, drop: Some(false) };
    assert_eq!(stash_apply_args(&request).unwrap(), strings(&["stash", "apply"]));
}

#[test]
fn stash_arguments_are_checked() {
    let request = GitStashPushRequest {
        repository_path: "/r".into(),
        message: Some(String::new()),
        include_untracked: None,
    };
    assert_eq!(
        stash_push_args(&request).unwrap_err().message,
        "invalid argument: message cannot be empty"
    );
    let request = GitStashPushRequest {
        repository_path: "/r".into(),
        message: Some("a\0b".into()),
        include_untracked: Some(true),
    };
    assert_eq!(
        stash_push_args(&request).unwrap_err().message,
        "invalid argument: message may not contain null bytes"
    );
    let request =
        GitStashApplyRequest { repository_path: "/r".into(), name: Some(String::new()), drop: None };
    assert_eq!(
        stash_apply_args(&request).unwrap_err().message,
        "invalid argument: name cannot be empty"
    );
    let request = GitStashApplyRequest {
        repository_path: "/r".into(),
        name: Some("x\0".into()),
        drop: Some(true),
    };
    assert_eq!(
        stash_apply_args(&request).unwrap_err().message,
        "invalid argument: name may not contain null bytes"
    );
}

#[test]
fn command_line_puts_the_prefix_first() {
    let config = GitCommandConfig {
        executable: GitExecutable {
            program: "powershell.exe".into(),
            prefix_args: strings(&["-NoProfile", "-Command", "git"]),
            description: "powershell wrapper".into(),
        },
        working_dir: "/r".into(),
    };
    assert_eq!(
        command_line(&config, &status_args()),
        strings(&["-NoProfile", "-Command", "git", "status", "--branch", "--porcelain=v1", "-z"])
    );
}

#[test]
fn outcome_is_trimmed_and_not_an_error() {
    let outcome = capture_outcome(Some(0), "  out\n", "\n");
    assert_eq!(outcome.exit_code, Some(0));
    assert!(outcome.success);
    assert_eq!(outcome.stdout, "out");
    assert_eq!(outcome.stderr, "");
    let outcome = capture_outcome(Some(1), "", " fatal: bad \n");
    assert!(!outcome.success);
    assert_eq!(outcome.exit_code, Some(1));
    assert_eq!(outcome.stderr, "fatal: bad");
    let outcome = capture_outcome(None, "x", "y");
    assert!(!outcome.success);
    assert_eq!(outcome.exit_code, None);
    assert_eq!(exit_code_or_minus_one(None), -1);
    assert_eq!(exit_code_or_minus_one(Some(3)), 3);
}

#[test]
fn branch_result_reports_failure_as_text() {
    let ok = branch_result(capture_outcome(Some(0), "", "warning"), "topic".into(), SWITCH_FAILED);
    assert_eq!(ok.unwrap().branch, "topic");
    let err = branch_result(capture_outcome(Some(1), "", " no such branch "), "topic".into(), DELETE_FAILED);
    assert_eq!(err.unwrap_err().message, "no such branch");
    let err = branch_result(capture_outcome(Some(1), "", "  "), "topic".into(), CHECKOUT_FAILED);
    assert_eq!(err.unwrap_err().message, "failed to checkout target");
    assert_eq!(SWITCH_FAILED, "failed to switch branch");
    assert_eq!(DELETE_FAILED, "failed to delete branch");
}

#[test]
fn app_error_texts() {
    assert_eq!(AppError::Io("a".into()).message(), "io: a");
    assert_eq!(AppError::Db("b".into()).message(), "db: b");
    assert_eq!(AppError::Git("c".into()).message(), "git: c");
    assert_eq!(AppError::Other("d".into()).message(), "d");
}

#[test]
fn change_events_are_debounced() {
    assert!(should_emit(None, 0));
    assert!(should_emit(Some(1000), 1200));
    assert!(!should_emit(Some(1000), 1199));
    assert!(!should_emit(Some(1000), 1000));
    assert!(!should_emit(Some(1000), 900));
    assert!(should_emit(Some(0), u64::MAX));
}

#[test]
fn change_kinds_have_words() {
    assert_eq!(describe_change(ChangeKind::Create), "create");
    assert_eq!(describe_change(ChangeKind::Modify), "modify");
    assert_eq!(describe_change(ChangeKind::Remove), "remove");
    assert_eq!(describe_change(ChangeKind::Access), "access");
    assert_eq!(describe_change(ChangeKind::Any), "any");
    assert_eq!(describe_change(ChangeKind::Other), "other");
    assert_eq!(describe_event_kind(&notify::EventKind::Any), "any");
    assert_eq!(describe_event_kind(&notify::EventKind::Other), "other");
    assert_eq!(
        describe_event_kind(&notify::EventKind::Create(notify::event::CreateKind::File)),
        "create"
    );
    assert_eq!(
        describe_event_kind(&notify::EventKind::Remove(notify::event::RemoveKind::Any)),
        "remove"
    );
}

#[test]
fn repository_path_is_required() {
    let r = required_repository_path(GitRepositoryRequest { repository_path: None });
    assert_eq!(r.unwrap_err().message, "repository_path is required");
    let r = required_repository_path(GitRepositoryRequest { repository_path: Some("/r".into()) });
    assert_eq!(r.unwrap(), "/r");
    assert_eq!(
        run_failure(&strings(&["log", "-n", "1"]), "/repo", "denied"),
        "git:err run log -n 1 @ /repo -> denied"
    );
    assert_eq!(run_failure(&vec![], "", ""), "git:err run  @  -> ");
}

#[test]
fn setup_texts() {
    assert_eq!(DATABASE_FILE, "projectlib.db");
    assert_eq!(database_url("/data/projectlib.db"), "sqlite:/data/projectlib.db");
    assert_eq!(ping_reply("hello", "desktop"), "hello :: reply from desktop");
}
