use gitk_rs::commits::{
    revert_commit_message, CherryPickConfig, CommitOperations, GitResetType, MergeStrategy, ResetConfig,
    RevertConfig,
};
use gitk_rs::operations::OperationType;
use gitk_rs::repository::GitRepository;

fn create_test_repo() -> (tempfile::TempDir, String) {
    let dir = tempfile::TempDir::new().unwrap();
    let repo = git2::Repository::init(dir.path()).unwrap();
    let mut cfg = repo.config().unwrap();
    cfg.set_str("user.name", "Test User").unwrap();
    cfg.set_str("user.email", "test@example.com").unwrap();
    let path = dir.path().to_str().unwrap().to_string();
    (dir, path)
}

fn create_test_commit(path: &str, filename: &str, content: &str, message: &str) -> String {
    let repo = git2::Repository::open(path).unwrap();
    let blob = repo.blob(content.as_bytes()).unwrap();
    let parent = repo.head().ok().and_then(|h| h.peel_to_commit().ok());
    let base_tree = parent.as_ref().map(|c| c.tree().unwrap());
    let mut builder = repo.treebuilder(base_tree.as_ref()).unwrap();
    builder.insert(filename, blob, 0o100644).unwrap();
    let tree = repo.find_tree(builder.write().unwrap()).unwrap();
    let when = match &parent {
        Some(c) => c.time().seconds() + 1,
        None => 1_700_000_000,
    };
    let sig = git2::Signature::new("Test User", "test@example.com", &git2::Time::new(when, 0)).unwrap();
    let parents: Vec<&git2::Commit> = parent.iter().collect();
    let oid = repo.commit(Some("HEAD"), &sig, &sig, message, &tree, &parents).unwrap();
    let mut opts = git2::build::CheckoutBuilder::new();
    opts.force();
    repo.checkout_head(Some(&mut opts)).unwrap();
    oid.to_string()
}

fn checkout_branch(path: &str, name: &str, create: bool) {
    let repo = git2::Repository::open(path).unwrap();
    if create {
        let head = repo.head().unwrap().peel_to_commit().unwrap();
        repo.branch(name, &head, false).unwrap();
    }
    repo.set_head(&format!("refs/heads/{}", name)).unwrap();
    let mut opts = git2::build::CheckoutBuilder::new();
    opts.force();
    repo.checkout_head(Some(&mut opts)).unwrap();
}

fn current_branch(path: &str) -> String {
    let repo = git2::Repository::open(path).unwrap();
    let head = repo.head().unwrap();
    head.shorthand().unwrap().to_string()
}

#[test]
fn test_commit_operations_creation() {
    let (_temp_dir, repo_path) = create_test_repo();
    create_test_commit(&repo_path, "test.txt", "content", "Initial commit");
    let git_repo = GitRepository::discover(&repo_path).unwrap();
    let operations = CommitOperations::new(&git_repo).unwrap();
    assert_eq!(operations.get_operation_history().len(), 0);
}

#[test]
fn test_cherry_pick_operation() {
    let (_temp_dir, repo_path) = create_test_repo();
    create_test_commit(&repo_path, "base.txt", "base content", "Base commit");
    let main = current_branch(&repo_path);
    checkout_branch(&repo_path, "feature", true);
    let feature_commit = create_test_commit(&repo_path, "feature.txt", "feature content", "Feature commit");
    checkout_branch(&repo_path, &main, false);
    let git_repo = GitRepository::discover(&repo_path).unwrap();
    let mut operations = CommitOperations::new(&git_repo).unwrap();
    let config = CherryPickConfig {
        mainline: None,
        no_commit: false,
        edit_message: false,
        sign_off: false,
        allow_empty: false,
        allow_empty_message: false,
        strategy: Some(MergeStrategy::Recursive),
        strategy_options: vec![],
    };
    let result = operations.cherry_pick(&feature_commit, config).unwrap();
    assert!(result.success || !result.success);
    assert_eq!(result.operation, OperationType::CommitCherryPick);
}

#[test]
fn test_revert_operation() {
    let (_temp_dir, repo_path) = create_test_repo();
    create_test_commit(&repo_path, "file1.txt", "content1", "First commit");
    let commit_to_revert = create_test_commit(&repo_path, "file2.txt", "content2", "Second commit");
    create_test_commit(&repo_path, "file3.txt", "content3", "Third commit");
    let git_repo = GitRepository::discover(&repo_path).unwrap();
    let mut operations = CommitOperations::new(&git_repo).unwrap();
    let config = RevertConfig {
        mainline: None,
        no_commit: false,
        edit_message: false,
        sign_off: false,
        strategy: Some(MergeStrategy::Recursive),
    };
    let result = operations.revert(&commit_to_revert, config).unwrap();
    assert!(result.success || !result.success);
    assert_eq!(result.operation, OperationType::CommitRevert);
    assert!(operations.get_operation_history().len() > 0);
}

#[test]
fn test_reset_operations() {
    let (_temp_dir, repo_path) = create_test_repo();
    create_test_commit(&repo_path, "file1.txt", "content1", "First commit");
    let target_commit = create_test_commit(&repo_path, "file2.txt", "content2", "Second commit");
    create_test_commit(&repo_path, "file3.txt", "content3", "Third commit");
    let git_repo = GitRepository::discover(&repo_path).unwrap();
    let mut operations = CommitOperations::new(&git_repo).unwrap();
    let soft_config = ResetConfig { reset_type: GitResetType::Soft, pathspecs: vec![] };
    let result = operations.reset(&target_commit, soft_config).unwrap();
    assert!(result.success);
    assert_eq!(result.operation, OperationType::CommitReset);
}

#[test]
fn test_commit_validation() {
    let (_temp_dir, repo_path) = create_test_repo();
    create_test_commit(&repo_path, "test.txt", "content", "Initial commit");
    let git_repo = GitRepository::discover(&repo_path).unwrap();
    let mut operations = CommitOperations::new(&git_repo).unwrap();
    let result = operations.cherry_pick("invalid-sha", CherryPickConfig::default());
    assert!(result.is_err());
    let result = operations.cherry_pick("", CherryPickConfig::default());
    assert!(result.is_err());
}

#[test]
fn test_reset_types() {
    let (_temp_dir, repo_path) = create_test_repo();
    create_test_commit(&repo_path, "file1.txt", "content1", "First commit");
    let target_commit = create_test_commit(&repo_path, "file2.txt", "content2", "Second commit");
    create_test_commit(&repo_path, "file3.txt", "content3", "Third commit");
    let git_repo = GitRepository::discover(&repo_path).unwrap();
    let mut operations = CommitOperations::new(&git_repo).unwrap();
    let reset_types = [GitResetType::Soft, GitResetType::Mixed, GitResetType::Hard];
    for reset_type in reset_types.iter() {
        let config = ResetConfig { reset_type: reset_type.clone(), pathspecs: vec![] };
        let result = operations.reset(&target_commit, config).unwrap();
        assert!(result.success);
        assert_eq!(result.operation, OperationType::CommitReset);
    }
}

#[test]
fn test_cherry_pick_config() {
    let config = CherryPickConfig::default();
    assert_eq!(config.mainline, None);
    assert_eq!(config.no_commit, false);
    assert_eq!(config.allow_empty, false);
    assert_eq!(config.allow_empty_message, false);
    assert_eq!(config.strategy, None);
}

#[test]
fn test_revert_config() {
    let config = RevertConfig::default();
    assert_eq!(config.mainline, None);
    assert_eq!(config.no_commit, false);
    assert_eq!(config.edit_message, false);
    assert_eq!(config.strategy, None);
}

#[test]
fn test_reset_config() {
    let config = ResetConfig::default();
    assert_eq!(config.reset_type, GitResetType::Mixed);
    assert!(config.pathspecs.is_empty());
}

#[test]
fn test_operation_history_tracking() {
    let (_temp_dir, repo_path) = create_test_repo();
    create_test_commit(&repo_path, "file1.txt", "content1", "First commit");
    let commit_id = create_test_commit(&repo_path, "file2.txt", "content2", "Second commit");
    let git_repo = GitRepository::discover(&repo_path).unwrap();
    let mut operations = CommitOperations::new(&git_repo).unwrap();
    operations.reset(&commit_id, ResetConfig::default()).unwrap();
    let history = operations.get_operation_history();
    assert!(history.len() > 0);
    let last_op = &history[history.len() - 1];
    assert_eq!(last_op.operation_type, OperationType::CommitReset);
    assert!(!last_op.description.is_empty());
}

#[test]
fn test_commit_operation_result_structure() {
    let (_temp_dir, repo_path) = create_test_repo();
    create_test_commit(&repo_path, "file1.txt", "content1", "First commit");
    let commit_id = create_test_commit(&repo_path, "file2.txt", "content2", "Second commit");
    let git_repo = GitRepository::discover(&repo_path).unwrap();
    let mut operations = CommitOperations::new(&git_repo).unwrap();
    let result = operations.reset(&commit_id, ResetConfig::default()).unwrap();
    assert_eq!(result.operation, OperationType::CommitReset);
    assert!(!result.message.is_empty());
    assert!(result.commit_id.is_some());
}

#[test]
fn test_error_handling() {
    let (_temp_dir, repo_path) = create_test_repo();
    create_test_commit(&repo_path, "test.txt", "content", "Initial commit");
    let git_repo = GitRepository::discover(&repo_path).unwrap();
    let mut operations = CommitOperations::new(&git_repo).unwrap();
    let result = operations.cherry_pick("not-a-valid-sha", CherryPickConfig::default());
    assert!(result.is_err());
    let result = operations.cherry_pick("1234567890123456789012345678901234567890", CherryPickConfig::default());
    assert!(result.is_err());
}

#[test]
fn test_input_sanitization() {
    let (_temp_dir, repo_path) = create_test_repo();
    create_test_commit(&repo_path, "test.txt", "content", "Initial commit");
    let git_repo = GitRepository::discover(&repo_path).unwrap();
    let mut operations = CommitOperations::new(&git_repo).unwrap();
    let dangerous_inputs = ["../../../etc/passwd", "$(rm -rf /)", "; cat /etc/passwd", "' OR '1'='1"];
    for dangerous_input in dangerous_inputs.iter() {
        let result = operations.cherry_pick(dangerous_input, CherryPickConfig::default());
        assert!(result.is_err());
    }
}

#[test]
fn test_pathspec_validation() {
    let (_temp_dir, repo_path) = create_test_repo();
    create_test_commit(&repo_path, "file1.txt", "content1", "First commit");
    let commit_id = create_test_commit(&repo_path, "file2.txt", "content2", "Second commit");
    let git_repo = GitRepository::discover(&repo_path).unwrap();
    let mut operations = CommitOperations::new(&git_repo).unwrap();
    let config = ResetConfig {
        reset_type: GitResetType::Mixed,
        pathspecs: vec!["file1.txt".to_string(), "file2.txt".to_string()],
    };
    let result = operations.reset(&commit_id, config).unwrap();
    assert!(result.success);
}

#[test]
fn test_operation_isolation() {
    let (_temp_dir, repo_path) = create_test_repo();
    create_test_commit(&repo_path, "test.txt", "content", "Initial commit");
    let git_repo = GitRepository::discover(&repo_path).unwrap();
    let mut operations1 = CommitOperations::new(&git_repo).unwrap();
    let operations2 = CommitOperations::new(&git_repo).unwrap();
    assert_eq!(operations1.get_operation_history().len(), 0);
    assert_eq!(operations2.get_operation_history().len(), 0);
    let commit_id = create_test_commit(&repo_path, "file2.txt", "content2", "Second commit");
    operations1.reset(&commit_id, ResetConfig::default()).unwrap();
    assert!(operations1.get_operation_history().len() > 0);
    assert_eq!(operations2.get_operation_history().len(), 0);
}

#[test]
fn test_revert_message_uses_first_line() {
    let m = revert_commit_message(&Some("Add thing\n\nDetails".to_string()), "abc");
    assert_eq!(m, "Revert \"Add thing\"\n\nThis reverts commit abc.");
    let m = revert_commit_message(&None, "abc");
    assert_eq!(m, "Revert \"Unknown commit\"\n\nThis reverts commit abc.");
}
