use desktop_lib::git::auth::{
    collect_cleanup, merge_auth_env, AuthPlan, EnvMap, GitAuth, Platform, PreparedAuth,
};
use desktop_lib::git::models::{GitError, GitErrorResponse, GitExecutable};
use desktop_lib::git::repository::{
    canonicalize_target, classify_entry, detect_repository_at, not_a_repository, parse_gitdir,
    search_start, EntryKind, GitEntry, DOT_GIT,
};
use desktop_lib::git::service::GitService;

fn temp_handle() -> tempfile::TempPath {
    tempfile::NamedTempFile::new().expect("temp file").into_temp_path()
}

#[test]
fn override_rejects_empty_and_blank_paths() {
    let mut service = GitService::with_detected(Platform::Unix, Some("/usr/bin/git".to_string()));
    match service.set_override(Some(String::new())) {
        Err(GitError::InvalidPath(m)) => assert_eq!(m, "git executable path cannot be empty"),
        other => panic!("unexpected {:?}", other),
    }
    match service.set_override(Some("   ".to_string())) {
        Err(GitError::InvalidPath(m)) => assert_eq!(m, "git executable path cannot be empty"),
        other => panic!("unexpected {:?}", other),
    }
    assert_eq!(service.info().configured_path, None);
}

#[test]
fn override_rejects_a_blank_path_even_where_one_exists() {
    let mut service = GitService::with_detected(Platform::Unix, None);
    match service.apply_override(Some("  ".to_string()), true) {
        Err(GitError::InvalidPath(m)) => assert_eq!(m, "git executable path cannot be empty"),
        other => panic!("unexpected {:?}", other),
    }
    assert_eq!(service.info().configured_path, None);
}

#[test]
fn override_rejects_a_path_that_does_not_exist() {
    let mut service = GitService::with_detected(Platform::Unix, None);
    match service.set_override(Some("/definitely/not/here/git-xyz".to_string())) {
        Err(GitError::InvalidPath(m)) => {
            assert_eq!(m, "configured git executable path does not exist")
        }
        other => panic!("unexpected {:?}", other),
    }
    assert_eq!(service.info().configured_path, None);
    match service.apply_override(Some("/some/git".to_string()), false) {
        Err(GitError::InvalidPath(m)) => {
            assert_eq!(m, "configured git executable path does not exist")
        }
        other => panic!("unexpected {:?}", other),
    }
}

#[test]
fn override_accepts_an_existing_path_and_clearing_succeeds() {
    let file = tempfile::NamedTempFile::new().expect("temp file");
    let path = file.path().to_string_lossy().to_string();
    let mut service = GitService::with_detected(Platform::Unix, Some("/usr/bin/git".to_string()));
    let info = service.set_override(Some(path.clone())).expect("existing path");
    assert_eq!(info.configured_path.as_deref(), Some(path.as_str()));
    assert_eq!(info.effective_path.as_deref(), Some(path.as_str()));
    assert_eq!(info.detected_path.as_deref(), Some("/usr/bin/git"));
    assert!(!info.uses_wrapper);
    let info = service.set_override(None).expect("clearing");
    assert_eq!(info.configured_path, None);
    assert_eq!(info.effective_path.as_deref(), Some("/usr/bin/git"));
    let info = service.set_override(None).expect("clearing again");
    assert_eq!(info.configured_path, None);
}

#[test]
fn resolution_prefers_configured_then_detected_then_fallback() {
    let mut service = GitService::with_detected(Platform::Unix, None);
    let exec = service.current_executable().expect("fallback");
    assert_eq!(exec.program, "git");
    assert!(exec.prefix_args.is_empty());
    assert_eq!(exec.description, "git on PATH");
    service.set_detected(Some("/opt/git".to_string()));
    let exec = service.current_executable().expect("detected");
    assert_eq!(exec.program, "/opt/git");
    assert_eq!(exec.description, "detected git");
    service.apply_override(Some("/my/git".to_string()), true).expect("override");
    let exec = service.current_executable().expect("configured");
    assert_eq!(exec.program, "/my/git");
    assert_eq!(exec.description, "user override");
    let info = service.info();
    assert_eq!(info.detected_path.as_deref(), Some("/opt/git"));
    assert_eq!(info.configured_path.as_deref(), Some("/my/git"));
    assert_eq!(info.effective_path.as_deref(), Some("/my/git"));
}

#[test]
fn windows_fallback_is_a_wrapper() {
    let service = GitService::with_detected(Platform::Windows, None);
    let exec = service.current_executable().expect("fallback");
    assert_eq!(exec.program, "powershell.exe");
    assert_eq!(exec.prefix_args, vec!["-NoProfile", "-Command", "git"]);
    assert_eq!(exec.description, "powershell wrapper");
    let info = service.info();
    assert!(info.uses_wrapper);
    assert_eq!(info.effective_path.as_deref(), Some("powershell.exe -NoProfile -Command git"));
    assert_eq!(info.detected_path, None);
}

#[test]
fn new_service_has_no_override() {
    let mut service = GitService::new(Platform::Unix);
    let info = service.info();
    assert_eq!(info.configured_path, None);
    assert!(info.effective_path.is_some());
    service.refresh_detection();
    assert_eq!(service.info().configured_path, None);
    let config = service.prepare("/work".to_string()).expect("config");
    assert_eq!(config.working_dir, "/work");
}

#[test]
fn program_display_joins_with_spaces() {
    let exec = GitExecutable {
        program: "wsl".to_string(),
        prefix_args: vec!["-e".to_string(), "git".to_string()],
        description: "x".to_string(),
    };
    assert_eq!(exec.program_display(), "wsl -e git");
    let exec = GitExecutable {
        program: "git".to_string(),
        prefix_args: vec![],
        description: "x".to_string(),
    };
    assert_eq!(exec.program_display(), "git");
    let exec = GitExecutable {
        program: "p".to_string(),
        prefix_args: vec!["one".to_string()],
        description: "x".to_string(),
    };
    assert_eq!(exec.program_display(), "p one");
}

#[test]
fn error_texts() {
    assert_eq!(GitError::MissingGit.message(), "git executable not available");
    assert_eq!(GitError::InvalidPath("p".into()).message(), "invalid path provided: p");
    assert_eq!(GitError::Io("e".into()).message(), "io error: e");
    assert_eq!(GitError::Spawn("s".into()).message(), "failed to spawn git: s");
    assert_eq!(GitError::Parse("x".into()).message(), "failed to parse git output: x");
    assert_eq!(GitError::MissingRepository.message(), "the repository path is required");
    assert_eq!(GitError::InvalidArgument("a".into()).message(), "invalid argument: a");
    let response = GitErrorResponse::from(GitError::InvalidArgument("a".into()));
    assert_eq!(response.message, "invalid argument: a");
}

#[test]
fn token_without_username_defaults_to_git() {
    let auth = GitAuth::Token { token: "abc".to_string(), username: None };
    let plan = auth.prepare(Platform::Unix).expect("plan");
    let pending = match plan {
        AuthPlan::Askpass(p) => p,
        AuthPlan::Ready(_) => panic!("a token needs the hook script"),
    };
    assert_eq!(pending.env.get("TAURI_GIT_USERNAME").as_deref(), Some("git"));
    assert_eq!(pending.env.get("TAURI_GIT_PASSWORD").as_deref(), Some("abc"));
    assert_eq!(pending.env.get("GIT_TERMINAL_PROMPT").as_deref(), Some("0"));
    assert_eq!(pending.env.get("GIT_ASKPASS"), None);
    assert_eq!(pending.script.prefix, "projectlib-askpass-");
    assert_eq!(pending.script.suffix, "");
    assert!(pending.script.owner_only);
    assert!(pending.script.contents.starts_with("#!/bin/sh\n"));
    assert!(!pending.script.contents.contains("abc"));
    let prepared = pending.install("/tmp/hook-1".to_string(), temp_handle());
    assert_eq!(prepared.env.get("GIT_ASKPASS").as_deref(), Some("/tmp/hook-1"));
    assert_eq!(prepared.env.get("GIT_TERMINAL_PROMPT").as_deref(), Some("0"));
    assert_eq!(prepared.env.len(), 4);
    assert_eq!(prepared.cleanup.len(), 1);
}

#[test]
fn token_with_username_and_user_password() {
    let auth = GitAuth::Token { token: "t".to_string(), username: Some("me".to_string()) };
    match auth.prepare(Platform::Windows).expect("plan") {
        AuthPlan::Askpass(p) => {
            assert_eq!(p.env.get("TAURI_GIT_USERNAME").as_deref(), Some("me"));
            assert_eq!(p.script.suffix, ".cmd");
            assert!(!p.script.owner_only);
            assert!(p.script.contents.starts_with("@echo off\n"));
        }
        AuthPlan::Ready(_) => panic!("a token needs the hook script"),
    }
    let auth = GitAuth::UserPassword { username: "u".to_string(), password: "p".to_string() };
    match auth.prepare(Platform::Unix).expect("plan") {
        AuthPlan::Askpass(p) => {
            assert_eq!(p.env.get("TAURI_GIT_USERNAME").as_deref(), Some("u"));
            assert_eq!(p.env.get("TAURI_GIT_PASSWORD").as_deref(), Some("p"));
            assert_eq!(p.env.len(), 3);
        }
        AuthPlan::Ready(_) => panic!("a password needs the hook script"),
    }
}

#[test]
fn credentials_with_nul_are_refused() {
    let auth = GitAuth::Token { token: "a\0b".to_string(), username: None };
    match auth.prepare(Platform::Unix) {
        Err(GitError::InvalidArgument(m)) => {
            assert_eq!(m, "credential values may not contain null bytes")
        }
        other => panic!("unexpected {:?}", other),
    }
    let auth = GitAuth::UserPassword { username: "\0".to_string(), password: "p".to_string() };
    assert!(matches!(auth.prepare(Platform::Unix), Err(GitError::InvalidArgument(_))));
}

#[test]
fn ssh_command_needs_no_file() {
    let auth = GitAuth::SshCommand { command: "ssh -i key".to_string() };
    match auth.prepare(Platform::Unix).expect("plan") {
        AuthPlan::Ready(prepared) => {
            assert_eq!(prepared.env.get("GIT_SSH_COMMAND").as_deref(), Some("ssh -i key"));
            assert_eq!(prepared.env.len(), 1);
            assert!(prepared.cleanup.is_empty());
        }
        AuthPlan::Askpass(_) => panic!("a transport command needs no script"),
    }
    let auth = GitAuth::SshCommand { command: "  \t".to_string() };
    match auth.prepare(Platform::Unix) {
        Err(GitError::InvalidArgument(m)) => {
            assert_eq!(m, "SSH command override must not be empty")
        }
        other => panic!("unexpected {:?}", other),
    }
}

#[test]
fn askpass_script_text() {
    let unix = GitAuth::askpass_contents(Platform::Unix);
    assert_eq!(
        unix,
        "#!/bin/sh\ncase \"$1\" in\n  *Username* ) printf '%s\\n' \"$TAURI_GIT_USERNAME\" ;;\n  *username* ) printf '%s\\n' \"$TAURI_GIT_USERNAME\" ;;\n  * ) printf '%s\\n' \"$TAURI_GIT_PASSWORD\" ;;\nesac\n"
    );
    let windows = GitAuth::askpass_contents(Platform::Windows);
    assert_eq!(windows.lines().count(), 8);
    assert!(windows.contains("echo %TAURI_GIT_PASSWORD%"));
}

#[test]
fn env_map_insert_replaces() {
    let mut env = EnvMap::new();
    assert_eq!(env.len(), 0);
    env.insert("A".to_string(), "1".to_string());
    env.insert("B".to_string(), "2".to_string());
    env.insert("A".to_string(), "3".to_string());
    assert_eq!(env.len(), 2);
    assert_eq!(env.get("A").as_deref(), Some("3"));
    assert_eq!(env.get("B").as_deref(), Some("2"));
    assert_eq!(env.get("C"), None);
    let mut pairs = env.pairs();
    pairs.sort();
    assert_eq!(pairs, vec![("A".to_string(), "3".to_string()), ("B".to_string(), "2".to_string())]);
}

#[test]
fn merge_prefers_the_extra_values() {
    let mut base = EnvMap::new();
    base.insert("A".to_string(), "base".to_string());
    base.insert("B".to_string(), "base".to_string());
    let mut extra = EnvMap::new();
    extra.insert("B".to_string(), "extra".to_string());
    extra.insert("C".to_string(), "extra".to_string());
    let merged = merge_auth_env(base, &extra);
    assert_eq!(merged.len(), 3);
    assert_eq!(merged.get("A").as_deref(), Some("base"));
    assert_eq!(merged.get("B").as_deref(), Some("extra"));
    assert_eq!(merged.get("C").as_deref(), Some("extra"));
    let merged = merge_auth_env(EnvMap::new(), &EnvMap::new());
    assert_eq!(merged.len(), 0);
}

#[test]
fn cleanup_handles_are_collected_in_order() {
    let a = temp_handle();
    let b = temp_handle();
    let c = temp_handle();
    let names = vec![a.to_path_buf(), b.to_path_buf(), c.to_path_buf()];
    let all = collect_cleanup(vec![a], vec![b, c]);
    assert_eq!(all.len(), 3);
    for (handle, name) in all.iter().zip(names.iter()) {
        assert_eq!(&handle.to_path_buf(), name);
    }
    let empty = PreparedAuth::empty();
    assert_eq!(empty.env.len(), 0);
    assert!(empty.cleanup.is_empty());
}

#[test]
fn gitdir_file_with_absolute_target() {
    let entry = GitEntry::File(Some("gitdir: /abs/meta\n".to_string()));
    let info = detect_repository_at("/work/tree", "/work/tree/.git", &entry).expect("repository");
    assert!(info.is_repository);
    assert_eq!(info.worktree_root.as_deref(), Some("/work/tree"));
    assert_eq!(info.git_dir.as_deref(), Some("/abs/meta"));
}

#[test]
fn gitdir_file_with_relative_target() {
    let entry = GitEntry::File(Some("# comment\ngitdir: ../meta/worktrees/x\n".to_string()));
    let info = detect_repository_at("/work/tree", "/work/tree/.git", &entry).expect("repository");
    assert_eq!(info.worktree_root.as_deref(), Some("/work/tree"));
    let expected = std::path::Path::new("/work/tree").join("../meta/worktrees/x");
    assert_eq!(info.git_dir.as_deref(), Some(expected.to_string_lossy().as_ref()));
}

#[test]
fn git_directory_is_the_metadata_directory() {
    let info = detect_repository_at("/work/tree", "/work/tree/.git", &GitEntry::Directory)
        .expect("repository");
    assert!(info.is_repository);
    assert_eq!(info.worktree_root.as_deref(), Some("/work/tree"));
    assert_eq!(info.git_dir.as_deref(), Some("/work/tree/.git"));
    assert_eq!(DOT_GIT, ".git");
}

#[test]
fn no_repository_here() {
    assert!(detect_repository_at("/work", "/work/.git", &GitEntry::Missing).is_none());
    assert!(detect_repository_at("/work", "/work/.git", &GitEntry::File(None)).is_none());
    assert!(detect_repository_at(
        "/work",
        "/work/.git",
        &GitEntry::File(Some("nothing".to_string()))
    )
    .is_none());
    assert!(matches!(classify_entry(&GitEntry::Missing), EntryKind::Nothing));
    assert!(matches!(classify_entry(&GitEntry::Directory), EntryKind::Metadata));
    let info = not_a_repository();
    assert!(!info.is_repository);
    assert_eq!(info.worktree_root, None);
    assert_eq!(info.git_dir, None);
}

#[test]
fn gitdir_line_is_found_and_trimmed() {
    assert_eq!(parse_gitdir("gitdir:   /a b/c  \r\n").as_deref(), Some("/a b/c"));
    assert_eq!(parse_gitdir("x\ngitdir:gitdir:rel\ngitdir: other").as_deref(), Some("rel"));
    assert_eq!(parse_gitdir(" gitdir: indented"), None);
    assert_eq!(parse_gitdir(""), None);
}

#[test]
fn directory_to_resolve() {
    match canonicalize_target("  ", true, None) {
        Err(GitError::InvalidPath(m)) => assert_eq!(m, "path cannot be empty"),
        other => panic!("unexpected {:?}", other),
    }
    assert_eq!(canonicalize_target("/a/b", true, Some("/a".to_string())).unwrap(), "/a/b");
    assert_eq!(canonicalize_target("/a/b", false, Some("/a".to_string())).unwrap(), "/a");
    match canonicalize_target("/", false, None) {
        Err(GitError::InvalidPath(m)) => assert_eq!(m, "path does not exist"),
        other => panic!("unexpected {:?}", other),
    }
    assert_eq!(search_start("/a/b", true, Some("/a".to_string())), "/a/b");
    assert_eq!(search_start("/a/b", false, Some("/a".to_string())), "/a");
    assert_eq!(search_start("/", false, None), "/");
}
