use vstd::prelude::*;
use vstd::string::StringExecFns;

use crate::git::auth::GitAuth;
use crate::text::{join_words, joined};

verus! {

/// Why a request to the version-control tool was not carried out.
#[derive(Debug)]
pub enum GitError {
    /// No usable executable could be resolved.
    MissingGit,
    /// An override or repository path was rejected.
    InvalidPath(String),
    /// The operating system reported an input/output failure.
    Io(String),
    /// The process could not be started.
    Spawn(String),
    /// Tool output could not be understood.
    Parse(String),
    /// A repository path was needed and not given.
    MissingRepository,
    /// An argument or credential value failed sanitation.
    InvalidArgument(String),
}

/// The mathematical value of a `GitError`.
pub enum GitErrorView {
    MissingGit,
    InvalidPath(Seq<char>),
    Io(Seq<char>),
    Spawn(Seq<char>),
    Parse(Seq<char>),
    MissingRepository,
    InvalidArgument(Seq<char>),
}

impl DeepView for GitError {
    type V = GitErrorView;

    open spec fn deep_view(&self) -> GitErrorView {
        match self {
            GitError::MissingGit => GitErrorView::MissingGit,
            GitError::InvalidPath(m) => GitErrorView::InvalidPath(m@),
            GitError::Io(m) => GitErrorView::Io(m@),
            GitError::Spawn(m) => GitErrorView::Spawn(m@),
            GitError::Parse(m) => GitErrorView::Parse(m@),
            GitError::MissingRepository => GitErrorView::MissingRepository,
            GitError::InvalidArgument(m) => GitErrorView::InvalidArgument(m@),
        }
    }
}

impl GitErrorView {
    /// The text shown for the error.
    pub open spec fn message(self) -> Seq<char> {
        match self {
            GitErrorView::MissingGit => "git executable not available"@,
            GitErrorView::InvalidPath(m) => "invalid path provided: "@ + m,
            GitErrorView::Io(m) => "io error: "@ + m,
            GitErrorView::Spawn(m) => "failed to spawn git: "@ + m,
            GitErrorView::Parse(m) => "failed to parse git output: "@ + m,
            GitErrorView::MissingRepository => "the repository path is required"@,
            GitErrorView::InvalidArgument(m) => "invalid argument: "@ + m,
        }
    }
}

impl GitError {
    /// The text shown for the error.
    pub fn message(&self) -> (r: String)
        ensures
            r@ == self.deep_view().message(),
    {
        match self {
            GitError::MissingGit => String::from_str("git executable not available"),
            GitError::InvalidPath(m) => String::from_str("invalid path provided: ").concat(
                m.as_str(),
            ),
            GitError::Io(m) => String::from_str("io error: ").concat(m.as_str()),
            GitError::Spawn(m) => String::from_str("failed to spawn git: ").concat(m.as_str()),
            GitError::Parse(m) => String::from_str("failed to parse git output: ").concat(
                m.as_str(),
            ),
            GitError::MissingRepository => String::from_str("the repository path is required"),
            GitError::InvalidArgument(m) => String::from_str("invalid argument: ").concat(
                m.as_str(),
            ),
        }
    }
}

/// An error as it is handed to the surrounding application.
#[derive(Debug)]
pub struct GitErrorResponse {
    pub message: String,
}

impl GitErrorResponse {
    /// The response that carries the text of `value`.
    pub fn from(value: GitError) -> (r: Self)
        ensures
            r.message@ == value.deep_view().message(),
    {
        GitErrorResponse { message: value.message() }
    }
}

/// One changed file of a status report.
#[derive(Debug, Clone)]
pub struct GitFileChange {
    pub path: String,
    pub original_path: Option<String>,
    pub index_status: Option<String>,
    pub worktree_status: Option<String>,
}

/// The mathematical value of a `GitFileChange`.
pub struct GitFileChangeView {
    pub path: Seq<char>,
    pub original_path: Option<Seq<char>>,
    pub index_status: Option<Seq<char>>,
    pub worktree_status: Option<Seq<char>>,
}

impl DeepView for GitFileChange {
    type V = GitFileChangeView;

    open spec fn deep_view(&self) -> GitFileChangeView {
        GitFileChangeView {
            path: self.path@,
            original_path: self.original_path.deep_view(),
            index_status: self.index_status.deep_view(),
            worktree_status: self.worktree_status.deep_view(),
        }
    }
}

/// A parsed status report.
#[derive(Debug, Clone)]
pub struct GitStatusResponse {
    pub branch: Option<String>,
    pub upstream: Option<String>,
    pub ahead: u32,
    pub behind: u32,
    pub detached: bool,
    pub staged: Vec<GitFileChange>,
    pub unstaged: Vec<GitFileChange>,
    pub conflicts: Vec<GitFileChange>,
    pub untracked: Vec<String>,
    pub is_clean: bool,
}

/// The mathematical value of a `GitStatusResponse`.
pub struct GitStatusView {
    pub branch: Option<Seq<char>>,
    pub upstream: Option<Seq<char>>,
    pub ahead: u32,
    pub behind: u32,
    pub detached: bool,
    pub staged: Seq<GitFileChangeView>,
    pub unstaged: Seq<GitFileChangeView>,
    pub conflicts: Seq<GitFileChangeView>,
    pub untracked: Seq<Seq<char>>,
    pub is_clean: bool,
}

impl DeepView for GitStatusResponse {
    type V = GitStatusView;

    open spec fn deep_view(&self) -> GitStatusView {
        GitStatusView {
            branch: self.branch.deep_view(),
            upstream: self.upstream.deep_view(),
            ahead: self.ahead,
            behind: self.behind,
            detached: self.detached,
            staged: self.staged.deep_view(),
            unstaged: self.unstaged.deep_view(),
            conflicts: self.conflicts.deep_view(),
            untracked: self.untracked.deep_view(),
            is_clean: self.is_clean,
        }
    }
}

/// One line of the short log.
#[derive(Debug, Clone)]
pub struct GitLogEntry {
    pub commit: String,
    pub refs: Vec<String>,
    pub summary: String,
}

/// The mathematical value of a `GitLogEntry`.
pub struct GitLogEntryView {
    pub commit: Seq<char>,
    pub refs: Seq<Seq<char>>,
    pub summary: Seq<char>,
}

impl DeepView for GitLogEntry {
    type V = GitLogEntryView;

    open spec fn deep_view(&self) -> GitLogEntryView {
        GitLogEntryView {
            commit: self.commit@,
            refs: self.refs.deep_view(),
            summary: self.summary@,
        }
    }
}

/// The parsed short log.
#[derive(Debug, Clone)]
pub struct GitLogResponse {
    pub entries: Vec<GitLogEntry>,
}

/// One commit of the history graph.
#[derive(Debug, Clone)]
pub struct GitGraphEntry {
    pub commit: String,
    pub parents: Vec<String>,
    pub author: String,
    pub date: String,
    pub subject: String,
}

/// The mathematical value of a `GitGraphEntry`.
pub struct GitGraphEntryView {
    pub commit: Seq<char>,
    pub parents: Seq<Seq<char>>,
    pub author: Seq<char>,
    pub date: Seq<char>,
    pub subject: Seq<char>,
}

impl DeepView for GitGraphEntry {
    type V = GitGraphEntryView;

    open spec fn deep_view(&self) -> GitGraphEntryView {
        GitGraphEntryView {
            commit: self.commit@,
            parents: self.parents.deep_view(),
            author: self.author@,
            date: self.date@,
            subject: self.subject@,
        }
    }
}

/// The parsed history graph.
#[derive(Debug, Clone)]
pub struct GitGraphResponse {
    pub entries: Vec<GitGraphEntry>,
}

/// The branches of a repository.
#[derive(Debug, Clone)]
pub struct GitBranchesResponse {
    pub current: Option<String>,
    pub local: Vec<String>,
    pub remote: Vec<String>,
}

/// The mathematical value of a `GitBranchesResponse`.
pub struct GitBranchesView {
    pub current: Option<Seq<char>>,
    pub local: Seq<Seq<char>>,
    pub remote: Seq<Seq<char>>,
}

impl DeepView for GitBranchesResponse {
    type V = GitBranchesView;

    open spec fn deep_view(&self) -> GitBranchesView {
        GitBranchesView {
            current: self.current.deep_view(),
            local: self.local.deep_view(),
            remote: self.remote.deep_view(),
        }
    }
}

/// The branch that a switch, delete or checkout acted on.
#[derive(Debug, Clone)]
pub struct GitSwitchResponse {
    pub branch: String,
}

/// One stash.
#[derive(Debug, Clone)]
pub struct GitStashEntry {
    pub name: String,
    pub hash: String,
    pub relative_time: String,
    pub message: String,
}

/// The mathematical value of a `GitStashEntry`.
pub struct GitStashEntryView {
    pub name: Seq<char>,
    pub hash: Seq<char>,
    pub relative_time: Seq<char>,
    pub message: Seq<char>,
}

impl DeepView for GitStashEntry {
    type V = GitStashEntryView;

    open spec fn deep_view(&self) -> GitStashEntryView {
        GitStashEntryView {
            name: self.name@,
            hash: self.hash@,
            relative_time: self.relative_time@,
            message: self.message@,
        }
    }
}

/// The parsed stash list.
#[derive(Debug, Clone)]
pub struct GitStashList {
    pub entries: Vec<GitStashEntry>,
}

/// One remote with one of its addresses.
#[derive(Debug, Clone)]
pub struct GitRemote {
    pub name: String,
    pub url: String,
    pub kind: String,
}

/// The mathematical value of a `GitRemote`.
pub struct GitRemoteView {
    pub name: Seq<char>,
    pub url: Seq<char>,
    pub kind: Seq<char>,
}

impl DeepView for GitRemote {
    type V = GitRemoteView;

    open spec fn deep_view(&self) -> GitRemoteView {
        GitRemoteView { name: self.name@, url: self.url@, kind: self.kind@ }
    }
}

/// The parsed list of remotes.
#[derive(Debug, Clone)]
pub struct GitRemoteList {
    pub remotes: Vec<GitRemote>,
}

/// One file touched by a commit.
#[derive(Debug, Clone)]
pub struct GitCommitFileChange {
    pub status: String,
    pub path: String,
}

/// The mathematical value of a `GitCommitFileChange`.
pub struct GitCommitFileChangeView {
    pub status: Seq<char>,
    pub path: Seq<char>,
}

impl DeepView for GitCommitFileChange {
    type V = GitCommitFileChangeView;

    open spec fn deep_view(&self) -> GitCommitFileChangeView {
        GitCommitFileChangeView { status: self.status@, path: self.path@ }
    }
}

/// One commit with its message and the files it touched.
#[derive(Debug, Clone)]
pub struct GitCommitDetails {
    pub commit: String,
    pub author: String,
    pub date: String,
    pub message: String,
    pub files: Vec<GitCommitFileChange>,
}

/// The mathematical value of a `GitCommitDetails`.
pub struct GitCommitDetailsView {
    pub commit: Seq<char>,
    pub author: Seq<char>,
    pub date: Seq<char>,
    pub message: Seq<char>,
    pub files: Seq<GitCommitFileChangeView>,
}

impl DeepView for GitCommitDetails {
    type V = GitCommitDetailsView;

    open spec fn deep_view(&self) -> GitCommitDetailsView {
        GitCommitDetailsView {
            commit: self.commit@,
            author: self.author@,
            date: self.date@,
            message: self.message@,
            files: self.files.deep_view(),
        }
    }
}

/// How the tool is invoked: directly, or through a wrapper program that is
/// given `prefix_args` before the tool's own arguments.
#[derive(Debug, Clone)]
pub struct GitExecutable {
    pub program: String,
    pub prefix_args: Vec<String>,
    pub description: String,
}

/// The mathematical value of a `GitExecutable`.
pub struct GitExecutableView {
    pub program: Seq<char>,
    pub prefix_args: Seq<Seq<char>>,
    pub description: Seq<char>,
}

impl DeepView for GitExecutable {
    type V = GitExecutableView;

    open spec fn deep_view(&self) -> GitExecutableView {
        GitExecutableView {
            program: self.program@,
            prefix_args: self.prefix_args.deep_view(),
            description: self.description@,
        }
    }
}

impl GitExecutableView {
    /// The program followed by its prefix arguments, with single spaces
    /// between them.
    pub open spec fn display(self) -> Seq<char> {
        if self.prefix_args.len() == 0 {
            self.program
        } else {
            self.program + seq![' '] + joined(self.prefix_args, seq![' '])
        }
    }
}

impl GitExecutable {
    /// The program followed by its prefix arguments, as one line.
    pub fn program_display(&self) -> (r: String)
        ensures
            r@ == self.deep_view().display(),
    {
        let mut out = self.program.clone();
        if self.prefix_args.len() == 0 {
            return out;
        }
        out.push(' ');
        let rest = join_words(&self.prefix_args);
        out.append(rest.as_str());
        out
    }
}

/// Which executable is in effect, and why.
#[derive(Debug, Clone)]
pub struct GitPathInfo {
    pub detected_path: Option<String>,
    pub configured_path: Option<String>,
    pub effective_path: Option<String>,
    pub uses_wrapper: bool,
}

/// The mathematical value of a `GitPathInfo`.
pub struct GitPathInfoView {
    pub detected_path: Option<Seq<char>>,
    pub configured_path: Option<Seq<char>>,
    pub effective_path: Option<Seq<char>>,
    pub uses_wrapper: bool,
}

impl DeepView for GitPathInfo {
    type V = GitPathInfoView;

    open spec fn deep_view(&self) -> GitPathInfoView {
        GitPathInfoView {
            detected_path: self.detected_path.deep_view(),
            configured_path: self.configured_path.deep_view(),
            effective_path: self.effective_path.deep_view(),
            uses_wrapper: self.uses_wrapper,
        }
    }
}

/// Where a repository lies, if a path belongs to one.
#[derive(Debug, Clone)]
pub struct GitRepositoryInfo {
    pub is_repository: bool,
    pub worktree_root: Option<String>,
    pub git_dir: Option<String>,
}

/// The mathematical value of a `GitRepositoryInfo`.
pub struct GitRepositoryInfoView {
    pub is_repository: bool,
    pub worktree_root: Option<Seq<char>>,
    pub git_dir: Option<Seq<char>>,
}

impl DeepView for GitRepositoryInfo {
    type V = GitRepositoryInfoView;

    open spec fn deep_view(&self) -> GitRepositoryInfoView {
        GitRepositoryInfoView {
            is_repository: self.is_repository,
            worktree_root: self.worktree_root.deep_view(),
            git_dir: self.git_dir.deep_view(),
        }
    }
}

/// The handle of a streaming invocation.
#[derive(Debug, Clone)]
pub struct GitCommandHandle {
    pub command_id: String,
}

/// How a streaming invocation ended.
#[derive(Debug, Clone)]
pub struct GitCommandCompletion {
    pub command_id: String,
    pub exit_code: Option<i32>,
    pub success: bool,
}

/// What a command that ran to its end left behind.
#[derive(Debug, Clone)]
pub struct GitCommandOutcome {
    pub exit_code: Option<i32>,
    pub success: bool,
    pub stdout: String,
    pub stderr: String,
}

/// The mathematical value of a `GitCommandOutcome`.
pub struct GitCommandOutcomeView {
    pub exit_code: Option<i32>,
    pub success: bool,
    pub stdout: Seq<char>,
    pub stderr: Seq<char>,
}

impl DeepView for GitCommandOutcome {
    type V = GitCommandOutcomeView;

    open spec fn deep_view(&self) -> GitCommandOutcomeView {
        GitCommandOutcomeView {
            exit_code: self.exit_code,
            success: self.success,
            stdout: self.stdout@,
            stderr: self.stderr@,
        }
    }
}

/// The kind of an event of a streaming invocation.
#[derive(Debug, Clone, Copy, PartialEq, Eq, Structural)]
pub enum GitStreamEventKind {
    Stdout,
    Stderr,
    Completed,
    Error,
}

/// One event of a streaming invocation.
#[derive(Debug, Clone)]
pub struct GitStreamEvent {
    pub command_id: String,
    pub kind: GitStreamEventKind,
    pub data: Option<String>,
    pub exit_code: Option<i32>,
    pub success: Option<bool>,
}

/// The mathematical value of a `GitStreamEvent`.
pub struct GitStreamEventView {
    pub command_id: Seq<char>,
    pub kind: GitStreamEventKind,
    pub data: Option<Seq<char>>,
    pub exit_code: Option<i32>,
    pub success: Option<bool>,
}

impl DeepView for GitStreamEvent {
    type V = GitStreamEventView;

    open spec fn deep_view(&self) -> GitStreamEventView {
        GitStreamEventView {
            command_id: self.command_id@,
            kind: self.kind,
            data: self.data.deep_view(),
            exit_code: self.exit_code,
            success: self.success,
        }
    }
}

/// A request that names a repository, or none.
#[derive(Debug)]
pub struct GitRepositoryRequest {
    pub repository_path: Option<String>,
}

/// A request to stage or unstage paths.
#[derive(Debug)]
pub struct GitStageRequest {
    pub repository_path: String,
    pub paths: Vec<String>,
}

/// A request to commit what is staged.
#[derive(Debug)]
pub struct GitCommitRequest {
    pub repository_path: String,
    pub message: String,
}

/// A request to show one commit.
#[derive(Debug)]
pub struct GitCommitDetailsRequest {
    pub repository_path: String,
    pub commit: String,
}

/// A request to switch to a branch, or to create it.
#[derive(Debug)]
pub struct GitBranchRequest {
    pub repository_path: String,
    pub branch: String,
    pub create: Option<bool>,
    pub track: Option<bool>,
}

/// A request to delete a branch.
#[derive(Debug)]
pub struct GitDeleteBranchRequest {
    pub repository_path: String,
    pub branch: String,
    pub force: Option<bool>,
}

/// A request to check out a branch, a tag or a commit.
#[derive(Debug)]
pub struct GitCheckoutRequest {
    pub repository_path: String,
    pub target: String,
}

/// A request to stash the changes of the worktree.
#[derive(Debug)]
pub struct GitStashPushRequest {
    pub repository_path: String,
    pub message: Option<String>,
    pub include_untracked: Option<bool>,
}

/// A request to apply a stash, or to pop it.
#[derive(Debug)]
pub struct GitStashApplyRequest {
    pub repository_path: String,
    pub name: Option<String>,
    pub drop: Option<bool>,
}

/// A request to list the remotes.
#[derive(Debug)]
pub struct GitRemoteRequest {
    pub repository_path: String,
}

/// A request for a streaming invocation.
#[derive(Debug)]
pub struct GitStreamRequest {
    pub repository_path: String,
    pub remote: Option<String>,
    pub branch: Option<String>,
    pub auth: Option<GitAuth>,
    pub command_id: Option<String>,
}

/// What one invocation runs, and where.
#[derive(Debug, Clone)]
pub struct GitCommandConfig {
    pub executable: GitExecutable,
    pub working_dir: String,
}

} // verus!
