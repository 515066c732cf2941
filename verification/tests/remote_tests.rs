use shelly::errors::ResolveError;
use shelly::plan::Action;
use shelly::plan::FsEntry;
use shelly::target::ProgramCommand;
use shelly::target::RemoteTarget;
use shelly::target::copy_build_directory;
use shelly::target::is_ignored_path;
use shelly::target::pull_git_repo;

fn repo(shell: Option<ProgramCommand>) -> RemoteTarget {
    RemoteTarget::new(
        "https://example.invalid/demo.git".to_string(),
        "npm".to_string(),
        vec!["install".to_string()],
        shell,
    )
}

#[test]
fn repo_without_shell_command_fails_before_cloning() {
    match pull_git_repo("proj".to_string(), &repo(None), true) {
        Err(ResolveError::MissingShellCommand { place }) => {
            assert_eq!(place, "git repo");
        },
        other => panic!("expected a missing-shell failure, got {:?}", other),
    }
}

#[test]
fn missing_shell_message_names_the_place() {
    let err = pull_git_repo("proj".to_string(), &repo(None), true).unwrap_err();
    assert_eq!(
        err.message(),
        "No shell command specified in config for this git repo"
    );
}

#[test]
fn repo_plan_clones_then_builds() {
    let plan = pull_git_repo("proj".to_string(), &repo(None), false).unwrap();
    assert_eq!(plan.len(), 2);
    match &plan[0] {
        Action::Run { dir, command } => {
            assert!(dir.is_none());
            assert_eq!(command.command(), "git");
            assert_eq!(
                command.args(),
                &vec![
                    "clone".to_string(),
                    "https://example.invalid/demo.git".to_string(),
                    "proj".to_string(),
                ]
            );
        },
        other => panic!("expected the clone command, got {:?}", other),
    }
    match &plan[1] {
        Action::Run { dir, command } => {
            assert_eq!(dir.as_deref(), Some("proj"));
            assert_eq!(command.command(), "npm");
            assert_eq!(command.args(), &vec!["install".to_string()]);
        },
        other => panic!("expected the build command, got {:?}", other),
    }
}

#[test]
fn repo_plan_runs_the_shell_with_stdin_attached() {
    let shell = ProgramCommand::new("./serve.sh".to_string(), Vec::new());
    let plan = pull_git_repo("proj".to_string(), &repo(Some(shell)), true).unwrap();
    assert_eq!(plan.len(), 3);
    match &plan[2] {
        Action::RunWithStdin { dir, command } => {
            assert_eq!(dir.as_deref(), Some("proj"));
            assert_eq!(command.command(), "./serve.sh");
        },
        other => panic!("expected the interactive shell, got {:?}", other),
    }
}

fn build_dir_target(shell: Option<ProgramCommand>) -> RemoteTarget {
    RemoteTarget::new("/srv/tree".to_string(), "make".to_string(), Vec::new(), shell)
}

#[test]
fn directory_without_shell_command_fails_before_copying() {
    match copy_build_directory("proj".to_string(), &build_dir_target(None), true, &Vec::new()) {
        Err(ResolveError::MissingShellCommand { place }) => {
            assert_eq!(place, "build folder");
        },
        other => panic!("expected a missing-shell failure, got {:?}", other),
    }
}

#[test]
fn directory_copy_skips_dependency_cache_folders() {
    let entries = vec![
        FsEntry::new("app.js".to_string(), false),
        FsEntry::new("node_modules".to_string(), true),
        FsEntry::new("node_modules/axios/index.js".to_string(), false),
        FsEntry::new("sub".to_string(), true),
        FsEntry::new("sub/lib.js".to_string(), false),
    ];
    let plan =
        copy_build_directory("proj".to_string(), &build_dir_target(None), false, &entries).unwrap();
    assert_eq!(plan[0], Action::CreateDirAll { path: "proj".to_string() });
    assert_eq!(
        plan[1],
        Action::CopyFile { from: "/srv/tree/app.js".to_string(), to: "proj/app.js".to_string() }
    );
    assert_eq!(plan[2], Action::CreateDirAll { path: "proj/sub".to_string() });
    assert_eq!(
        plan[3],
        Action::CopyFile {
            from: "/srv/tree/sub/lib.js".to_string(),
            to: "proj/sub/lib.js".to_string(),
        }
    );
    match &plan[4] {
        Action::Run { dir, command } => {
            assert_eq!(dir.as_deref(), Some("proj"));
            assert_eq!(command.command(), "make");
        },
        other => panic!("expected the build command, got {:?}", other),
    }
    assert_eq!(plan.len(), 5);
}

#[test]
fn nested_dependency_cache_folders_are_ignored_too() {
    assert!(is_ignored_path("node_modules"));
    assert!(is_ignored_path("node_modules/axios/index.js"));
    assert!(is_ignored_path("sub/node_modules"));
    assert!(is_ignored_path("sub/node_modules/lib.js"));
    assert!(!is_ignored_path("app.js"));
    assert!(!is_ignored_path("node_modules_backup/file"));
    assert!(!is_ignored_path("my_node_modules"));
}

#[test]
fn directory_plan_runs_the_shell_with_stdin_attached() {
    let shell = ProgramCommand::new("irb".to_string(), Vec::new());
    let plan = copy_build_directory(
        "proj".to_string(),
        &build_dir_target(Some(shell)),
        true,
        &Vec::new(),
    )
    .unwrap();
    match plan.last().unwrap() {
        Action::RunWithStdin { dir, command } => {
            assert_eq!(dir.as_deref(), Some("proj"));
            assert_eq!(command.command(), "irb");
        },
        other => panic!("expected the interactive shell, got {:?}", other),
    }
}
