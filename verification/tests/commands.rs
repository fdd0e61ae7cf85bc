use gitk_rs::commands::{
    choose_git_executable, create_safe_environment, current_branch_from, full_args,
    get_secure_environment, git_dir_from, has_work_tree_from, is_safe_path_windows, names_from_output,
    unix_path_candidates, validate_argument, work_tree_from, GitCommandRunner, GitSubcommand, HostEnvironment,
};

fn host() -> HostEnvironment {
    HostEnvironment {
        home: Some("/home/tester".to_string()),
        user: Some("tester".to_string()),
        shell: Some("/bin/sh".to_string()),
        shell_exists: true,
        path: Some("/usr/bin:/bin".to_string()),
        git_proxy: None,
        path_git: Some("/usr/bin/git".to_string()),
    }
}

fn env_get<'a>(env: &'a [(String, String)], key: &str) -> Option<&'a str> {
    env.iter().rev().find(|(k, _)| k == key).map(|(_, v)| v.as_str())
}

#[test]
fn test_git_command_runner_creation() {
    let runner = GitCommandRunner::new("/tmp/repo", &host()).unwrap();
    assert_eq!(runner.repo_path(), "/tmp/repo");
    assert!(runner.git_executable().starts_with('/'));
    assert!(!runner.environment().is_empty());
}

#[test]
fn test_command_security_validation() {
    let mut runner = GitCommandRunner::new("/tmp/repo", &host()).unwrap();
    let result = runner.admit_command(&["--upload-pack", "/bin/sh"]);
    assert!(result.is_err());
}

#[test]
fn test_environment_sanitization() {
    let runner = GitCommandRunner::new("/tmp/repo", &host()).unwrap();
    let env = runner.environment();
    assert!(env_get(env, "PATH").is_some());
    assert!(env_get(env, "HOME").is_some());
    assert!(env_get(env, "GIT_WORK_TREE").is_none() || env_get(env, "GIT_WORK_TREE").unwrap().is_empty());
}

#[test]
fn test_git_executable_discovery() {
    let git_path = choose_git_executable(Err("none".to_string()), &host()).unwrap();
    assert!(std::path::Path::new(&git_path).is_absolute());
    let missing = HostEnvironment { path_git: None, ..host() };
    assert_eq!(choose_git_executable(Err("none".to_string()), &missing), Err("Git executable not found in PATH".to_string()));
    assert_eq!(choose_git_executable(Ok("/opt/git".to_string()), &missing), Ok("/opt/git".to_string()));
}

#[test]
fn test_rate_limiting() {
    let mut runner = GitCommandRunner::new("/tmp/repo", &host()).unwrap();
    let mut refused = 0;
    for _ in 0..15 {
        match runner.admit_command(&["status", "--porcelain"]) {
            Ok(()) => runner.finish_command(),
            Err(_) => refused += 1,
        }
    }
    assert!(refused >= 5);
}

#[test]
fn test_command_argument_validation() {
    let mut runner = GitCommandRunner::new("/tmp/repo", &host()).unwrap();
    let valid_result = runner.admit_command(&["status", "--porcelain"]);
    assert!(valid_result.is_ok());
    runner.finish_command();
    let invalid_result = runner.admit_command(&["log", "../../../etc/passwd"]);
    assert!(invalid_result.is_err());
}

#[test]
fn test_working_directory_validation() {
    let result = GitCommandRunner::new("/this/path/does/not/exist", &host());
    assert!(result.is_ok() || result.is_err());
    let result = GitCommandRunner::new("/tmp", &host());
    assert!(result.is_ok());
}

#[test]
fn test_validate_argument_messages() {
    assert_eq!(validate_argument("a|b"), Err("Argument contains dangerous character: |".to_string()));
    assert_eq!(validate_argument("x\ny"), Err("Argument contains dangerous character: \n".to_string()));
    assert_eq!(validate_argument("--exec=ls"), Err("Argument contains dangerous pattern: --exec".to_string()));
    assert_eq!(validate_argument("--oneline"), Ok(()));
    assert_eq!(validate_argument("a;b|c"), Err("Argument contains dangerous character: |".to_string()));
}

#[test]
fn test_admission_refusal_order() {
    let mut runner = GitCommandRunner::new("/tmp/repo", &host()).unwrap();
    assert_eq!(runner.admit_command(&["push"]), Err("Command 'push' is not allowed".to_string()));
    assert!(runner.admit_command(&["log", "a;b"]).is_err());
}

#[test]
fn test_secure_environment_from_host() {
    let h = HostEnvironment {
        home: Some("/tmp/evil".to_string()),
        user: Some("te st!".to_string()),
        shell: Some("/bin/zsh".to_string()),
        shell_exists: false,
        path: None,
        git_proxy: None,
        path_git: None,
    };
    let env = get_secure_environment(&h);
    assert_eq!(env_get(&env, "HOME"), None);
    assert_eq!(env_get(&env, "USER"), Some("test"));
    assert_eq!(env_get(&env, "SHELL"), None);
    assert_eq!(env_get(&env, "TMPDIR"), Some("/tmp"));
}

#[test]
fn test_safe_environment_settings() {
    let base = vec![("PATH".to_string(), "/evil".to_string()), ("GIT_PAGER".to_string(), "less".to_string())];
    let env = create_safe_environment(base, Ok("/usr/bin".to_string()));
    assert_eq!(env_get(&env, "PATH"), Some("/usr/bin"));
    assert_eq!(env_get(&env, "GIT_PAGER"), Some("cat"));
    assert_eq!(env.iter().filter(|(k, _)| k == "GIT_PAGER").count(), 1);
    assert_eq!(env_get(&env, "GIT_TERMINAL_PROMPT"), Some("0"));
    assert_eq!(env_get(&env, "GIT_CEILING_DIRECTORIES"), Some("/"));
    let kept = create_safe_environment(vec![("PATH".to_string(), "/x".to_string())], Err("none".to_string()));
    assert_eq!(env_get(&kept, "PATH"), Some("/x"));
}

#[test]
fn test_path_candidates() {
    let c = unix_path_candidates("/usr/bin::/opt/bin/", "git");
    assert_eq!(c, vec!["/usr/bin/git".to_string(), "/opt/bin/git".to_string()]);
    assert!(unix_path_candidates("", "git").is_empty());
}

#[test]
fn test_full_args_prefixes() {
    assert_eq!(full_args(GitSubcommand::Log, &["--oneline", "-1"]), vec!["log", "--no-color", "--oneline", "-1"]);
    assert_eq!(full_args(GitSubcommand::RevList, &["HEAD"]), vec!["rev-list", "HEAD"]);
    assert_eq!(full_args(GitSubcommand::Diff, &[]), vec!["diff", "--no-color"]);
}

#[test]
fn test_output_parsers() {
    assert!(has_work_tree_from(&Ok("true\n".to_string())));
    assert!(!has_work_tree_from(&Ok("false\n".to_string())));
    assert!(!has_work_tree_from(&Err("failed".to_string())));
    assert_eq!(git_dir_from(Ok(" .git\n".to_string())), Ok(".git".to_string()));
    assert_eq!(work_tree_from(Ok("/r\n".to_string())), Some("/r".to_string()));
    assert_eq!(work_tree_from(Err("no".to_string())), None);
    assert_eq!(current_branch_from(&Ok("main\n".to_string())), Some("main".to_string()));
    assert_eq!(current_branch_from(&Ok("HEAD\n".to_string())), None);
    assert_eq!(names_from_output("main\n\norigin/main\n"), vec!["main".to_string(), "origin/main".to_string()]);
}

#[test]
fn test_windows_path_entries() {
    assert!(is_safe_path_windows("C:\\Program Files\\Git\\cmd"));
    assert!(!is_safe_path_windows("C:\\Windows\\Temp"));
    assert!(!is_safe_path_windows("\\\\server\\share"));
    assert!(!is_safe_path_windows("relative\\dir"));
    assert!(!is_safe_path_windows("C:\\a\\..\\b"));
    assert!(!is_safe_path_windows("1:\\x"));
}

#[test]
fn test_git_command_timeout() {
    let mut runner = GitCommandRunner::new("/tmp/repo", &host()).unwrap();
    let start = std::time::Instant::now();
    let result = runner.admit_command(&["status"]);
    let duration = start.elapsed();
    assert!(duration.as_secs() < 5);
    assert!(result.is_ok() || result.is_err());
}

#[test]
fn test_error_handling_and_logging() {
    let mut runner = GitCommandRunner::new("/tmp/repo", &host()).unwrap();
    let result = runner.admit_command(&["invalid-git-command"]);
    assert!(result.is_err());
    if let Err(e) = result {
        assert!(!e.is_empty());
        assert!(!e.contains("/proc/"));
        assert!(!e.contains("/sys/"));
    }
}

#[test]
fn test_platform_security() {
    let env = get_secure_environment(&host());
    assert!(!env.is_empty());
    assert!(gitk_rs::platform::PlatformSecurity::secure_path().is_ok());
    let _git_result = gitk_rs::platform::PlatformSecurity::find_git_executable_secure();
}

#[test]
fn test_safe_to_read_and_sanitize() {
    let facts = gitk_rs::platform::FileFacts { exists: true, is_file: true, len: 1024, mode: 0o644 };
    assert!(gitk_rs::platform::FileSystemSecurity::is_safe_to_read("/home/user/notes.txt", &facts).is_ok());
    let missing = gitk_rs::platform::FileFacts { exists: false, is_file: false, len: 0, mode: 0 };
    assert_eq!(
        gitk_rs::platform::FileSystemSecurity::is_safe_to_read("/home/user/notes.txt", &missing),
        Err("File does not exist".to_string())
    );
    assert!(gitk_rs::platform::FileSystemSecurity::sanitize_path("/proc/self").is_err());
    assert!(gitk_rs::platform::FileSystemSecurity::sanitize_path("/usr").is_ok());
}
