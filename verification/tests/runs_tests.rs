use desktop_lib::git::auth::{AuthPlan, EnvMap, GitAuth, Platform};
use desktop_lib::git::models::{GitCommandConfig, GitError, GitExecutable};
use desktop_lib::git::operations::{finish_capture, plan_invocation, ProcessResult};
use desktop_lib::git::repository::{detect_repository, AncestorProbe, GitEntry};
use desktop_lib::runs::{
    default_module_name, detect_c_like, detect_dotnet, detect_go, detect_gradle, detect_node,
    detect_project_runs, detect_python, detect_rust, extension_is_csproj, module_from_names,
    parse_python_module,
    push_unique, suggest_node, suggest_python, underscore, FileProbe, ProjectProbe,
    RunSuggestion, WalkedEntry,
};

fn strings(items: &[&str]) -> Vec<String> {
    items.iter().map(|s| s.to_string()).collect()
}

fn bare(root: &str) -> ProjectProbe {
    ProjectProbe {
        root: root.to_string(),
        root_name: Some("my-app".to_string()),
        package_json: FileProbe::Missing,
        pyproject: FileProbe::Missing,
        has_requirements: false,
        has_uv_lock: false,
        has_uv_toml: false,
        has_gradlew: false,
        has_gradlew_bat: false,
        has_cargo_toml: false,
        has_go_mod: false,
        has_makefile: false,
        has_cmake_lists: false,
        walked: vec![],
    }
}

fn made(command: &str, args: &[&str]) -> RunSuggestion {
    RunSuggestion {
        language: "x".to_string(),
        command: command.to_string(),
        args: strings(args),
        env: EnvMap::new(),
        cwd: None,
        reason: "r".to_string(),
    }
}

#[test]
fn push_unique_compares_command_and_arguments() {
    let mut list = Vec::new();
    push_unique(&mut list, made("make", &[]));
    push_unique(&mut list, made("make", &["all"]));
    push_unique(&mut list, made("make", &[]));
    push_unique(&mut list, made("cmake", &[]));
    push_unique(&mut list, made("make", &["all"]));
    assert_eq!(list.len(), 3);
    assert_eq!(list[0].command, "make");
    assert!(list[0].args.is_empty());
    assert_eq!(list[1].args, strings(&["all"]));
    assert_eq!(list[2].command, "cmake");
}

#[test]
fn node_prefers_dev_over_start() {
    let mut probe = bare("/p");
    probe.package_json =
        FileProbe::Text("{\"scripts\": {\"start\": \"node .\", \"dev\": \"vite\"}}".to_string());
    let mut list = Vec::new();
    detect_node(&probe, &mut list);
    assert_eq!(list.len(), 1);
    assert_eq!(list[0].language, "node");
    assert_eq!(list[0].command, "pnpm");
    assert_eq!(list[0].args, strings(&["run", "dev"]));
    assert_eq!(list[0].cwd.as_deref(), Some("/p"));
    assert_eq!(list[0].reason, "Detected package.json with `dev` script");
    assert_eq!(list[0].env.len(), 0);
    probe.package_json = FileProbe::Text("{\"scripts\": {\"start\": \"node .\"}}".to_string());
    let mut list = Vec::new();
    detect_node(&probe, &mut list);
    assert_eq!(list[0].args, strings(&["run", "start"]));
    assert_eq!(list[0].reason, "Detected package.json with `start` script");
}

#[test]
fn node_without_usable_scripts_gives_nothing() {
    for text in ["{}", "{\"scripts\": []}", "{\"scripts\": {\"build\": \"x\"}}", "not json", ""] {
        let mut probe = bare("/p");
        probe.package_json = FileProbe::Text(text.to_string());
        let mut list = Vec::new();
        detect_node(&probe, &mut list);
        assert!(list.is_empty(), "{}", text);
    }
    let mut probe = bare("/p");
    probe.package_json = FileProbe::Unreadable;
    let mut list = Vec::new();
    detect_node(&probe, &mut list);
    assert!(list.is_empty());
    let mut list = Vec::new();
    suggest_node("/p", false, false, &mut list);
    assert!(list.is_empty());
    suggest_node("/p", false, true, &mut list);
    assert_eq!(list[0].args, strings(&["run", "start"]));
}

#[test]
fn python_module_from_the_description() {
    let mut probe = bare("/p");
    probe.pyproject = FileProbe::Text("[project]\nname = \"my-cool-app\"\n".to_string());
    assert_eq!(parse_python_module(&probe).as_deref(), Some("my_cool_app"));
    probe.pyproject = FileProbe::Text("[tool.poetry]\nname = \"poetry-app\"\n".to_string());
    assert_eq!(parse_python_module(&probe).as_deref(), Some("poetry_app"));
    probe.pyproject = FileProbe::Text("[project]\nname = 3\n".to_string());
    assert_eq!(parse_python_module(&probe), None);
    probe.pyproject = FileProbe::Text("not = [toml".to_string());
    assert_eq!(parse_python_module(&probe), None);
    probe.pyproject = FileProbe::Unreadable;
    assert_eq!(parse_python_module(&probe), None);
    assert_eq!(default_module_name(&probe).as_deref(), Some("my_app"));
    assert_eq!(underscore("a-b--c"), "a_b__c");
    assert_eq!(underscore(""), "");
}

#[test]
fn python_suggestions() {
    let mut probe = bare("/p");
    probe.pyproject = FileProbe::Text("[project]\nname = \"tool-x\"\n".to_string());
    let mut list = Vec::new();
    detect_python(&probe, &mut list);
    assert_eq!(list.len(), 1);
    assert_eq!(list[0].language, "python");
    assert_eq!(list[0].command, "python");
    assert_eq!(list[0].args, strings(&["-m", "tool_x"]));
    assert_eq!(list[0].reason, "Detected pyproject.toml");
    assert_eq!(list[0].cwd.as_deref(), Some("/p"));

    probe.has_uv_lock = true;
    let mut list = Vec::new();
    detect_python(&probe, &mut list);
    assert_eq!(list[0].command, "uv");
    assert_eq!(list[0].args, strings(&["run", "python", "-m", "tool_x"]));
    assert_eq!(list[0].reason, "Detected pyproject with uv configuration");

    let mut probe = bare("/p");
    probe.has_requirements = true;
    let mut list = Vec::new();
    detect_python(&probe, &mut list);
    assert_eq!(list[0].args, strings(&["-m", "my_app"]));
    assert_eq!(list[0].reason, "Detected requirements.txt");

    probe.root_name = None;
    let mut list = Vec::new();
    detect_python(&probe, &mut list);
    assert!(list.is_empty());

    let probe = bare("/p");
    let mut list = Vec::new();
    detect_python(&probe, &mut list);
    assert!(list.is_empty());
    suggest_python(&probe, Some("named".to_string()), &mut list);
    assert!(list.is_empty());
}

#[test]
fn simple_detectors() {
    let mut probe = bare("/p");
    probe.has_gradlew_bat = true;
    probe.has_cargo_toml = true;
    probe.has_go_mod = true;
    probe.has_makefile = true;
    probe.has_cmake_lists = true;
    let mut list = Vec::new();
    detect_gradle(&probe, &mut list);
    detect_rust(&probe, &mut list);
    detect_go(&probe, &mut list);
    detect_c_like(&probe, &mut list);
    let commands: Vec<&str> = list.iter().map(|s| s.command.as_str()).collect();
    assert_eq!(commands, vec!["./gradlew", "cargo", "go", "make", "cmake"]);
    assert_eq!(list[0].language, "java");
    assert_eq!(list[0].args, strings(&["run"]));
    assert_eq!(list[0].reason, "Detected Gradle wrapper");
    assert_eq!(list[1].language, "rust");
    assert_eq!(list[1].reason, "Detected Cargo.toml");
    assert_eq!(list[2].args, strings(&["run", "."]));
    assert_eq!(list[2].reason, "Detected go.mod");
    assert_eq!(list[3].language, "c");
    assert!(list[3].args.is_empty());
    assert_eq!(list[3].reason, "Detected Makefile");
    assert_eq!(list[4].args, strings(&["--build", "build"]));
    assert_eq!(list[4].reason, "Detected CMakeLists.txt");
    let probe = bare("/p");
    let mut list = Vec::new();
    detect_gradle(&probe, &mut list);
    detect_rust(&probe, &mut list);
    detect_go(&probe, &mut list);
    detect_c_like(&probe, &mut list);
    assert!(list.is_empty());
}

#[test]
fn dotnet_takes_the_first_project_file() {
    assert!(extension_is_csproj("csproj"));
    assert!(extension_is_csproj("CsProj"));
    assert!(extension_is_csproj("CSPROJ"));
    assert!(!extension_is_csproj("csproj2"));
    assert!(!extension_is_csproj("vbproj"));
    assert!(!extension_is_csproj(""));
    let mut probe = bare("/p");
    probe.walked = vec![
        WalkedEntry { is_file: false, extension: Some("csproj".into()), parent: Some("/p".into()) },
        WalkedEntry { is_file: true, extension: None, parent: Some("/p".into()) },
        WalkedEntry { is_file: true, extension: Some("CSPROJ".into()), parent: Some("/p/app".into()) },
        WalkedEntry { is_file: true, extension: Some("csproj".into()), parent: Some("/p/lib".into()) },
    ];
    let mut list = Vec::new();
    detect_dotnet(&probe, &mut list);
    assert_eq!(list.len(), 1);
    assert_eq!(list[0].language, ".net");
    assert_eq!(list[0].command, "dotnet");
    assert_eq!(list[0].args, strings(&["run"]));
    assert_eq!(list[0].cwd.as_deref(), Some("/p/app"));
    assert_eq!(list[0].reason, "Detected .csproj file");
    probe.walked = vec![
        WalkedEntry { is_file: true, extension: Some("csproj".into()), parent: None },
        WalkedEntry { is_file: true, extension: Some("csproj".into()), parent: Some("/p/lib".into()) },
    ];
    let mut list = Vec::new();
    detect_dotnet(&probe, &mut list);
    assert!(list.is_empty());
}

#[test]
fn project_runs_in_order() {
    let mut probe = bare("/p");
    probe.package_json = FileProbe::Text("{\"scripts\": {\"dev\": \"x\"}}".to_string());
    probe.has_requirements = true;
    probe.has_cargo_toml = true;
    probe.has_makefile = true;
    let list = detect_project_runs(true, true, &probe).expect("suggestions");
    let commands: Vec<&str> = list.iter().map(|s| s.command.as_str()).collect();
    assert_eq!(commands, vec!["pnpm", "python", "cargo", "make"]);
    assert_eq!(detect_project_runs(false, false, &probe).unwrap_err(), "Path does not exist");
    assert_eq!(detect_project_runs(false, true, &probe).unwrap_err(), "Path does not exist");
    assert_eq!(
        detect_project_runs(true, false, &probe).unwrap_err(),
        "Path must point to a directory"
    );
    assert!(detect_project_runs(true, true, &bare("/q")).unwrap().is_empty());
}

#[test]
fn invocation_carries_credentials() {
    let config = GitCommandConfig {
        executable: GitExecutable {
            program: "powershell.exe".into(),
            prefix_args: strings(&["-Command", "git"]),
            description: "w".into(),
        },
        working_dir: "/repo".into(),
    };
    let auth = GitAuth::SshCommand { command: "ssh -v".into() };
    let prepared = match auth.prepare(Platform::Unix).unwrap() {
        AuthPlan::Ready(p) => p,
        AuthPlan::Askpass(_) => panic!("no script expected"),
    };
    let invocation = plan_invocation(config, strings(&["fetch", "--all"]), Some(prepared));
    assert_eq!(invocation.program, "powershell.exe");
    assert_eq!(invocation.args, strings(&["-Command", "git", "fetch", "--all"]));
    assert_eq!(invocation.working_dir, "/repo");
    assert_eq!(invocation.env.get("GIT_SSH_COMMAND").as_deref(), Some("ssh -v"));
    assert_eq!(invocation.env.len(), 1);
    assert!(invocation.cleanup.is_empty());

    let config = GitCommandConfig {
        executable: GitExecutable { program: "git".into(), prefix_args: vec![], description: "d".into() },
        working_dir: "/repo".into(),
    };
    let pending = match (GitAuth::Token { token: "t".into(), username: None }).prepare(Platform::Unix).unwrap() {
        AuthPlan::Askpass(p) => p,
        AuthPlan::Ready(_) => panic!("script expected"),
    };
    let handle = tempfile::NamedTempFile::new().unwrap().into_temp_path();
    let prepared = pending.install("/tmp/hook".into(), handle);
    let invocation = plan_invocation(config, strings(&["pull"]), Some(prepared));
    assert_eq!(invocation.args, strings(&["pull"]));
    assert_eq!(invocation.env.len(), 4);
    assert_eq!(invocation.cleanup.len(), 1);

    let config = GitCommandConfig {
        executable: GitExecutable { program: "git".into(), prefix_args: vec![], description: "d".into() },
        working_dir: "/repo".into(),
    };
    let invocation = plan_invocation(config, strings(&["status"]), None);
    assert_eq!(invocation.env.len(), 0);
    assert!(invocation.cleanup.is_empty());
}

#[test]
fn capture_releases_cleanup_whatever_happened() {
    let handle = tempfile::NamedTempFile::new().unwrap().into_temp_path();
    let end = finish_capture(
        vec![handle],
        ProcessResult::Exited { code: Some(2), stdout: " a \n".into(), stderr: "bad\n".into() },
    );
    assert_eq!(end.release.len(), 1);
    let outcome = end.outcome.expect("a failing exit is an outcome");
    assert!(!outcome.success);
    assert_eq!(outcome.exit_code, Some(2));
    assert_eq!(outcome.stdout, "a");
    assert_eq!(outcome.stderr, "bad");

    let handle = tempfile::NamedTempFile::new().unwrap().into_temp_path();
    let end = finish_capture(vec![handle], ProcessResult::NotStarted("no such program".into()));
    assert_eq!(end.release.len(), 1);
    match end.outcome {
        Err(GitError::Spawn(m)) => assert_eq!(m, "no such program"),
        other => panic!("unexpected {:?}", other),
    }
    let end = finish_capture(
        vec![],
        ProcessResult::Exited { code: Some(0), stdout: "".into(), stderr: "".into() },
    );
    assert!(end.outcome.unwrap().success);
    assert!(end.release.is_empty());
}

#[test]
fn repository_is_the_nearest_ancestor_with_an_entry() {
    let probes = vec![
        AncestorProbe { directory: "/a/b/c".into(), dot_git: "/a/b/c/.git".into(), entry: GitEntry::Missing },
        AncestorProbe { directory: "/a/b".into(), dot_git: "/a/b/.git".into(), entry: GitEntry::File(Some("junk".into())) },
        AncestorProbe { directory: "/a".into(), dot_git: "/a/.git".into(), entry: GitEntry::File(Some("gitdir: /abs/meta".into())) },
        AncestorProbe { directory: "/".into(), dot_git: "/.git".into(), entry: GitEntry::Directory },
    ];
    let info = detect_repository(&probes);
    assert!(info.is_repository);
    assert_eq!(info.worktree_root.as_deref(), Some("/a"));
    assert_eq!(info.git_dir.as_deref(), Some("/abs/meta"));
    let probes = vec![
        AncestorProbe { directory: "/x/y".into(), dot_git: "/x/y/.git".into(), entry: GitEntry::Missing },
        AncestorProbe { directory: "/x".into(), dot_git: "/x/.git".into(), entry: GitEntry::Directory },
        AncestorProbe { directory: "/".into(), dot_git: "/.git".into(), entry: GitEntry::Directory },
    ];
    let info = detect_repository(&probes);
    assert_eq!(info.worktree_root.as_deref(), Some("/x"));
    assert_eq!(info.git_dir.as_deref(), Some("/x/.git"));
    let probes = vec![
        AncestorProbe { directory: "/a/b".into(), dot_git: "/a/b/.git".into(), entry: GitEntry::Missing },
        AncestorProbe { directory: "/a".into(), dot_git: "/a/.git".into(), entry: GitEntry::File(None) },
        AncestorProbe { directory: "/".into(), dot_git: "/.git".into(), entry: GitEntry::Missing },
    ];
    let info = detect_repository(&probes);
    assert!(!info.is_repository);
    assert_eq!(info.worktree_root, None);
    assert_eq!(info.git_dir, None);
    assert!(!detect_repository(&vec![]).is_repository);
}

#[test]
fn module_name_prefers_the_project_name() {
    assert_eq!(
        module_from_names(Some("a-b".to_string()), Some("c-d".to_string())).as_deref(),
        Some("a_b")
    );
    assert_eq!(module_from_names(None, Some("c-d".to_string())).as_deref(), Some("c_d"));
    assert_eq!(module_from_names(None, None), None);
    let mut probe = bare("/p");
    probe.pyproject = FileProbe::Text(
        "[project]\nname = \"first-one\"\n[tool.poetry]\nname = \"second-one\"\n".to_string(),
    );
    assert_eq!(parse_python_module(&probe).as_deref(), Some("first_one"));
}
