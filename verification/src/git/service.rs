use vstd::prelude::*;
use vstd::string::StringExecFns;

use crate::git::auth::Platform;
use crate::git::models::{
    GitCommandConfig, GitError, GitErrorView, GitExecutable, GitExecutableView, GitPathInfo,
    GitPathInfoView,
};
use crate::text::{is_blank, str_is_blank};

verus! {

/// What is known of the executable: where a search found it, and what the
/// user set in its place.
#[derive(Debug)]
pub struct GitState {
    pub detected: Option<String>,
    pub configured: Option<String>,
}

/// The mathematical value of a `GitState`.
pub struct GitStateView {
    pub detected: Option<Seq<char>>,
    pub configured: Option<Seq<char>>,
}

impl DeepView for GitState {
    type V = GitStateView;

    open spec fn deep_view(&self) -> GitStateView {
        GitStateView {
            detected: self.detected.deep_view(),
            configured: self.configured.deep_view(),
        }
    }
}

/// The executable in effect: the configured one, else the detected one, else
/// what the platform falls back on, which on Windows is a shell that is told
/// to run the tool.
pub open spec fn resolved_executable(state: GitStateView, platform: Platform) -> GitExecutableView {
    match state.configured {
        Some(path) => GitExecutableView {
            program: path,
            prefix_args: Seq::empty(),
            description: "user override"@,
        },
        None => match state.detected {
            Some(path) => GitExecutableView {
                program: path,
                prefix_args: Seq::empty(),
                description: "detected git"@,
            },
            None => match platform {
                Platform::Windows => GitExecutableView {
                    program: "powershell.exe"@,
                    prefix_args: seq!["-NoProfile"@, "-Command"@, "git"@],
                    description: "powershell wrapper"@,
                },
                Platform::Unix => GitExecutableView {
                    program: "git"@,
                    prefix_args: Seq::empty(),
                    description: "git on PATH"@,
                },
            },
        },
    }
}

/// What is reported of a state: both paths, the executable in effect as one
/// line, and whether it is reached through a wrapper.
pub open spec fn info_of(state: GitStateView, platform: Platform) -> GitPathInfoView {
    GitPathInfoView {
        detected_path: state.detected,
        configured_path: state.configured,
        effective_path: Some(resolved_executable(state, platform).display()),
        uses_wrapper: resolved_executable(state, platform).prefix_args.len() > 0,
    }
}

/// Looks the tool up on the search path, with `which::which`. Nothing is
/// claimed of what it finds.
#[verifier::external_body]
fn detect_system_git() -> (r: Option<String>) {
    match which::which("git") {
        Ok(path) => Some(path.to_string_lossy().into_owned()),
        Err(_) => None,
    }
}

/// Asks the file system whether `path` exists, with `Path::exists`. Nothing
/// is claimed of the answer.
#[verifier::external_body]
fn path_exists(path: &str) -> (r: bool) {
    std::path::Path::new(path).exists()
}

/// Resolves which executable stands for the version-control tool.
#[derive(Debug)]
pub struct GitService {
    state: GitState,
    platform: Platform,
}

impl GitService {
    /// What is known of the executable.
    pub closed spec fn state(&self) -> GitStateView {
        self.state.deep_view()
    }

    /// The platform whose fallback is used.
    pub closed spec fn platform(&self) -> Platform {
        self.platform
    }

    /// A service with what a search of the path finds, and no override.
    pub fn new(platform: Platform) -> (r: Self)
        ensures
            r.state().configured is None,
            r.platform() == platform,
    {
        Self::with_detected(platform, detect_system_git())
    }

    /// A service with a given result of the search, and no override.
    pub fn with_detected(platform: Platform, detected: Option<String>) -> (r: Self)
        ensures
            r.state() == (GitStateView { detected: detected.deep_view(), configured: None }),
            r.platform() == platform,
    {
        GitService { state: GitState { detected, configured: None }, platform }
    }

    /// Searches the path again.
    pub fn refresh_detection(&mut self)
        ensures
            final(self).state().configured == old(self).state().configured,
            final(self).platform() == old(self).platform(),
    {
        self.set_detected(detect_system_git());
    }

    /// Takes `detected` as the result of the search.
    pub fn set_detected(&mut self, detected: Option<String>)
        ensures
            final(self).state() == (GitStateView {
                detected: detected.deep_view(),
                configured: old(self).state().configured,
            }),
            final(self).platform() == old(self).platform(),
    {
        self.state.detected = detected;
    }

    /// Sets the override, or clears it where `path` is `None`. A blank path
    /// is refused without a look at the file system; a path at which nothing
    /// exists is refused too. Where the path is refused the state stays.
    pub fn set_override(&mut self, path: Option<String>) -> (r: Result<GitPathInfo, GitError>)
        ensures
            final(self).platform() == old(self).platform(),
            final(self).state().detected == old(self).state().detected,
            match path {
                None => r is Ok && final(self).state().configured is None,
                Some(p) => if is_blank(p@) {
                    r is Err && r->Err_0.deep_view() == GitErrorView::InvalidPath(
                        "git executable path cannot be empty"@,
                    )
                } else {
                    r is Ok && final(self).state().configured == Some(p@) || r is Err
                        && r->Err_0.deep_view() == GitErrorView::InvalidPath(
                        "configured git executable path does not exist"@,
                    )
                },
            },
            r is Ok ==> r->Ok_0.deep_view() == info_of(final(self).state(), final(self).platform()),
            r is Err ==> final(self).state() == old(self).state(),
    {
        let exists = match &path {
            Some(p) => !str_is_blank(p.as_str()) && path_exists(p.as_str()),
            None => false,
        };
        self.apply_override(path, exists)
    }

    /// Sets the override where `exists` says that something exists at
    /// `path`, or clears it where `path` is `None`.
    pub fn apply_override(&mut self, path: Option<String>, exists: bool) -> (r: Result<
        GitPathInfo,
        GitError,
    >)
        ensures
            final(self).platform() == old(self).platform(),
            final(self).state().detected == old(self).state().detected,
            match path {
                None => r is Ok && final(self).state().configured is None,
                Some(p) => if is_blank(p@) {
                    r is Err && r->Err_0.deep_view() == GitErrorView::InvalidPath(
                        "git executable path cannot be empty"@,
                    )
                } else if !exists {
                    r is Err && r->Err_0.deep_view() == GitErrorView::InvalidPath(
                        "configured git executable path does not exist"@,
                    )
                } else {
                    r is Ok && final(self).state().configured == Some(p@)
                },
            },
            r is Ok ==> r->Ok_0.deep_view() == info_of(final(self).state(), final(self).platform()),
            r is Err ==> final(self).state() == old(self).state(),
    {
        match path {
            Some(value) => {
                if str_is_blank(value.as_str()) {
                    return Err(
                        GitError::InvalidPath(
                            String::from_str("git executable path cannot be empty"),
                        ),
                    );
                }
                if !exists {
                    return Err(
                        GitError::InvalidPath(
                            String::from_str("configured git executable path does not exist"),
                        ),
                    );
                }
                self.state.configured = Some(value);
            },
            None => {
                self.state.configured = None;
            },
        }
        Ok(self.info())
    }

    /// Both paths, the executable in effect and whether it is a wrapper.
    pub fn info(&self) -> (r: GitPathInfo)
        ensures
            r.deep_view() == info_of(self.state(), self.platform()),
    {
        self.info_inner(&self.state)
    }

    /// What one invocation runs in the directory `working_dir`.
    pub fn prepare(&self, working_dir: String) -> (r: Result<GitCommandConfig, GitError>)
        ensures
            r is Ok,
            r->Ok_0.executable.deep_view() == resolved_executable(self.state(), self.platform()),
            r->Ok_0.working_dir@ == working_dir@,
    {
        match self.current_executable() {
            Ok(executable) => Ok(GitCommandConfig { executable, working_dir }),
            Err(e) => Err(e),
        }
    }

    /// What is reported of `state` on the platform of this service.
    pub fn info_inner(&self, state: &GitState) -> (r: GitPathInfo)
        ensures
            r.deep_view() == info_of(state.deep_view(), self.platform()),
    {
        let (effective, direct) = match self.resolve_executable(state) {
            Ok(exec) => (Some(exec.program_display()), exec.prefix_args.len() == 0),
            Err(_) => (None, false),
        };
        GitPathInfo {
            detected_path: match &state.detected {
                Some(p) => Some(p.clone()),
                None => None,
            },
            configured_path: match &state.configured {
                Some(p) => Some(p.clone()),
                None => None,
            },
            effective_path: effective,
            uses_wrapper: !direct,
        }
    }

    /// The executable in effect.
    pub fn current_executable(&self) -> (r: Result<GitExecutable, GitError>)
        ensures
            r is Ok,
            r->Ok_0.deep_view() == resolved_executable(self.state(), self.platform()),
    {
        self.resolve_executable(&self.state)
    }

    /// The executable in effect for `state` on the platform of this service.
    pub fn resolve_executable(&self, state: &GitState) -> (r: Result<GitExecutable, GitError>)
        ensures
            r is Ok,
            r->Ok_0.deep_view() == resolved_executable(state.deep_view(), self.platform()),
    {
        match &state.configured {
            Some(configured) => {
                let exec = GitExecutable {
                    program: configured.clone(),
                    prefix_args: Vec::new(),
                    description: String::from_str("user override"),
                };
                assert(exec.prefix_args.deep_view() =~= Seq::<Seq<char>>::empty());
                return Ok(exec);
            },
            None => {},
        }
        match &state.detected {
            Some(detected) => {
                let exec = GitExecutable {
                    program: detected.clone(),
                    prefix_args: Vec::new(),
                    description: String::from_str("detected git"),
                };
                assert(exec.prefix_args.deep_view() =~= Seq::<Seq<char>>::empty());
                return Ok(exec);
            },
            None => {},
        }
        match self.platform {
            Platform::Windows => {
                let mut prefix_args: Vec<String> = Vec::new();
                prefix_args.push(String::from_str("-NoProfile"));
                prefix_args.push(String::from_str("-Command"));
                prefix_args.push(String::from_str("git"));
                assert(prefix_args.deep_view() =~= seq!["-NoProfile"@, "-Command"@, "git"@]);
                Ok(
                    GitExecutable {
                        program: String::from_str("powershell.exe"),
                        prefix_args,
                        description: String::from_str("powershell wrapper"),
                    },
                )
            },
            Platform::Unix => {
                let exec = GitExecutable {
                    program: String::from_str("git"),
                    prefix_args: Vec::new(),
                    description: String::from_str("git on PATH"),
                };
                assert(exec.prefix_args.deep_view() =~= Seq::<Seq<char>>::empty());
                Ok(exec)
            },
        }
    }
}

} // verus!
