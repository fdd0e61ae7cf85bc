use gitk_rs::repository::GitRepository;
use std::io::Write;
use std::path::Path;

fn create_test_repo() -> (tempfile::TempDir, String) {
    let dir = tempfile::TempDir::new().unwrap();
    let repo = git2::Repository::init(dir.path()).unwrap();
    let mut cfg = repo.config().unwrap();
    cfg.set_str("user.name", "Test User").unwrap();
    cfg.set_str("user.email", "test@example.com").unwrap();
    let path = dir.path().to_str().unwrap().to_string();
    (dir, path)
}

fn create_test_commit(path: &str, filename: &str, content: &str, message: &str) -> String {
    let repo = git2::Repository::open(path).unwrap();
    let blob = repo.blob(content.as_bytes()).unwrap();
    let parent = repo.head().ok().and_then(|h| h.peel_to_commit().ok());
    let base_tree = parent.as_ref().map(|c| c.tree().unwrap());
    let mut builder = repo.treebuilder(base_tree.as_ref()).unwrap();
    builder.insert(filename, blob, 0o100644).unwrap();
    let tree = repo.find_tree(builder.write().unwrap()).unwrap();
    let when = match &parent {
        Some(c) => c.time().seconds() + 1,
        None => 1_700_000_000,
    };
    let sig = git2::Signature::new("Test User", "test@example.com", &git2::Time::new(when, 0)).unwrap();
    let parents: Vec<&git2::Commit> = parent.iter().collect();
    let oid = repo.commit(Some("HEAD"), &sig, &sig, message, &tree, &parents).unwrap();
    let mut opts = git2::build::CheckoutBuilder::new();
    opts.force();
    repo.checkout_head(Some(&mut opts)).unwrap();
    oid.to_string()
}

fn dir_name(path: &str) -> String {
    Path::new(path).file_name().unwrap().to_string_lossy().to_string()
}

#[test]
fn test_repository_discovery_valid_repo() {
    let (_temp_dir, repo_path) = create_test_repo();
    create_test_commit(&repo_path, "test.txt", "Hello, World!", "Initial commit");
    let repository = GitRepository::discover(&repo_path).unwrap();
    assert!(Path::new(repository.workdir()).exists());
    assert_eq!(repository.info().name, dir_name(&repo_path));
}

#[test]
fn test_repository_discovery_invalid_path() {
    let result = GitRepository::discover("/does/not/exist");
    assert!(result.is_err());
}

#[test]
fn test_repository_discovery_non_git_directory() {
    let temp_dir = tempfile::TempDir::new().unwrap();
    let result = GitRepository::discover(temp_dir.path().to_str().unwrap());
    assert!(result.is_err());
}

#[test]
fn test_get_commits_basic() {
    let (_temp_dir, repo_path) = create_test_repo();
    create_test_commit(&repo_path, "file1.txt", "Content 1", "First commit");
    create_test_commit(&repo_path, "file2.txt", "Content 2", "Second commit");
    let repository = GitRepository::discover(&repo_path).unwrap();
    let commits = repository.get_commits(Some(10)).unwrap();
    assert_eq!(commits.len(), 2);
    assert_eq!(commits[0].summary, "Second commit");
    assert_eq!(commits[1].summary, "First commit");
}

#[test]
fn test_get_commits_with_limit() {
    let (_temp_dir, repo_path) = create_test_repo();
    for i in 1..=5 {
        create_test_commit(&repo_path, &format!("file{}.txt", i), &format!("Content {}", i), &format!("Commit {}", i));
    }
    let repository = GitRepository::discover(&repo_path).unwrap();
    let commits = repository.get_commits(Some(3)).unwrap();
    assert_eq!(commits.len(), 3);
    assert_eq!(commits[0].summary, "Commit 5");
    assert_eq!(commits[2].summary, "Commit 3");
}

#[test]
fn test_get_branches() {
    let (_temp_dir, repo_path) = create_test_repo();
    create_test_commit(&repo_path, "initial.txt", "Initial content", "Initial commit");
    {
        let repo = git2::Repository::open(&repo_path).unwrap();
        let head = repo.head().unwrap().peel_to_commit().unwrap();
        repo.branch("feature/test", &head, false).unwrap();
        repo.set_head("refs/heads/feature/test").unwrap();
    }
    create_test_commit(&repo_path, "feature.txt", "Feature content", "Feature commit");
    let repository = GitRepository::discover(&repo_path).unwrap();
    let branches = repository.get_branches().unwrap();
    assert!(branches.contains(&"main".to_string()) || branches.contains(&"master".to_string()));
    assert!(branches.contains(&"feature/test".to_string()));
}

#[test]
fn test_get_tags() {
    let (_temp_dir, repo_path) = create_test_repo();
    create_test_commit(&repo_path, "tagged.txt", "Tagged content", "Tagged commit");
    {
        let repo = git2::Repository::open(&repo_path).unwrap();
        let head = repo.head().unwrap().peel(git2::ObjectType::Commit).unwrap();
        repo.tag_lightweight("v1.0.0", &head, false).unwrap();
    }
    let repository = GitRepository::discover(&repo_path).unwrap();
    let tags = repository.get_tags().unwrap();
    assert!(tags.contains(&"v1.0.0".to_string()));
}

#[test]
fn test_get_commit_with_invalid_sha_empty() {
    let (_temp_dir, repo_path) = create_test_repo();
    create_test_commit(&repo_path, "test.txt", "Test content", "Test commit");
    let repository = GitRepository::discover(&repo_path).unwrap();
    assert!(repository.get_commit("").is_err());
}

#[test]
fn test_get_commit_with_invalid_sha_format() {
    let (_temp_dir, repo_path) = create_test_repo();
    create_test_commit(&repo_path, "test.txt", "Test content", "Test commit");
    let repository = GitRepository::discover(&repo_path).unwrap();
    assert!(repository.get_commit("invalid-sha").is_err());
}

#[test]
fn test_get_commit_with_invalid_sha_short() {
    let (_temp_dir, repo_path) = create_test_repo();
    create_test_commit(&repo_path, "test.txt", "Test content", "Test commit");
    let repository = GitRepository::discover(&repo_path).unwrap();
    assert!(repository.get_commit("123").is_err());
}

#[test]
fn test_search_commits() {
    let (_temp_dir, repo_path) = create_test_repo();
    create_test_commit(&repo_path, "file1.txt", "Content 1", "Add feature A");
    create_test_commit(&repo_path, "file2.txt", "Content 2", "Fix bug in component");
    create_test_commit(&repo_path, "file3.txt", "Content 3", "Add feature B");
    let repository = GitRepository::discover(&repo_path).unwrap();
    let commits = repository.search_commits("feature", Some(10)).unwrap();
    assert_eq!(commits.len(), 2);
    assert!(commits.iter().any(|c| c.summary.contains("feature A")));
    assert!(commits.iter().any(|c| c.summary.contains("feature B")));
}

#[test]
fn test_repository_info() {
    let (_temp_dir, repo_path) = create_test_repo();
    create_test_commit(&repo_path, "info.txt", "Info content", "Info commit");
    let repository = GitRepository::discover(&repo_path).unwrap();
    let info = repository.info();
    assert_eq!(info.name, dir_name(&repo_path));
    assert_eq!(Path::new(&info.path), Path::new(&repo_path));
    assert!(info.head_branch.is_some());
}

#[test]
fn test_has_uncommitted_changes_clean_repo() {
    let (_temp_dir, repo_path) = create_test_repo();
    create_test_commit(&repo_path, "clean.txt", "Clean content", "Clean commit");
    let repository = GitRepository::discover(&repo_path).unwrap();
    let has_changes = repository.has_uncommitted_changes().unwrap();
    assert!(!has_changes);
}

#[test]
fn test_has_uncommitted_changes_dirty_repo() {
    let (_temp_dir, repo_path) = create_test_repo();
    create_test_commit(&repo_path, "dirty.txt", "Initial content", "Initial commit");
    write_file(&repo_path, "dirty.txt", "Modified content");
    let repository = GitRepository::discover(&repo_path).unwrap();
    let has_changes = repository.has_uncommitted_changes().unwrap();
    assert!(has_changes);
}

#[test]
fn test_get_current_branch() {
    let (_temp_dir, repo_path) = create_test_repo();
    create_test_commit(&repo_path, "branch.txt", "Branch content", "Branch commit");
    let repository = GitRepository::discover(&repo_path).unwrap();
    let current_branch = repository.get_current_branch_safe().unwrap();
    assert!(current_branch.is_some());
    let branch = current_branch.unwrap();
    assert!(branch == "main" || branch == "master");
}

#[test]
fn test_get_repository_reference() {
    let (_temp_dir, repo_path) = create_test_repo();
    create_test_commit(&repo_path, "ref.txt", "Ref content", "Ref commit");
    let repository = GitRepository::discover(&repo_path).unwrap();
    let repo_ref = repository.get_repository();
    assert!(repo_ref.path().exists());
}

#[test]
fn test_path_method() {
    let (_temp_dir, repo_path) = create_test_repo();
    create_test_commit(&repo_path, "path.txt", "Path content", "Path commit");
    let repository = GitRepository::discover(&repo_path).unwrap();
    let returned_path = repository.workdir();
    assert_eq!(Path::new(returned_path), Path::new(&repo_path));
}

#[test]
fn test_repo_info_safe() {
    let (_temp_dir, repo_path) = create_test_repo();
    create_test_commit(&repo_path, "safe.txt", "Safe content", "Safe commit");
    let repository = GitRepository::discover(&repo_path).unwrap();
    let (has_worktree, worktree_path) = repository.get_repo_info_safe().unwrap();
    assert!(has_worktree);
    assert!(worktree_path.is_some());
}

#[test]
fn test_commit_message_roundtrip() {
    let (_temp_dir, repo_path) = create_test_repo();
    create_test_commit(&repo_path, "prop.txt", "Property content", "A message with ünïcödé");
    let repository = GitRepository::discover(&repo_path).unwrap();
    let commits = repository.get_commits(Some(1)).unwrap();
    assert_eq!(commits[0].summary, "A message with ünïcödé");
}

#[test]
fn test_file_content_roundtrip() {
    let (_temp_dir, repo_path) = create_test_repo();
    create_test_commit(&repo_path, "content.txt", "printable ASCII ~!@#", "Content test");
    let repository = GitRepository::discover(&repo_path).unwrap();
    let commits = repository.get_commits(Some(1)).unwrap();
    let content = repository.get_file_content(&commits[0].id, "content.txt").unwrap();
    assert_eq!(content, "printable ASCII ~!@#");
}

#[test]
fn test_commit_diff_of_added_file() {
    let (_temp_dir, repo_path) = create_test_repo();
    create_test_commit(&repo_path, "a.txt", "one\n", "First");
    let second = create_test_commit(&repo_path, "a.txt", "one\ntwo\n", "Second");
    let repository = GitRepository::discover(&repo_path).unwrap();
    let diffs = repository.get_commit_diff_enhanced(&second).unwrap();
    assert_eq!(diffs.len(), 1);
    assert_eq!(diffs[0].new_file, Some("a.txt".to_string()));
    assert_eq!(diffs[0].stats.insertions, 1);
    assert_eq!(diffs[0].stats.deletions, 0);
    assert_eq!(diffs[0].hunks.len(), 1);
    assert_eq!(diffs[0].hunks[0].header, "@@ -1,1 +1,2 @@");
    let file = repository.get_file_diff(&second, "a.txt").unwrap();
    assert_eq!(file.stats.files_changed, 1);
    assert_eq!(file.stats.insertions, 1);
    let plain = repository.get_commit_diff(&second).unwrap();
    assert_eq!(plain.len(), 1);
    assert!(plain[0].hunks.is_empty());
    assert!(repository.get_commit_diff("not hex").is_err());
}

#[test]
fn test_commit_tree_entries_paths() {
    let (_temp_dir, repo_path) = create_test_repo();
    let id = create_test_commit(&repo_path, "top.txt", "x", "First");
    let repository = GitRepository::discover(&repo_path).unwrap();
    let entries = repository.get_commit_tree_entries(&id).unwrap();
    assert_eq!(entries.len(), 1);
    assert_eq!(entries[0].name, "top.txt");
    assert_eq!(entries[0].path, "top.txt");
    assert!(!entries[0].is_tree);
}

#[test]
fn test_commit_stream_loads_history() {
    let (_temp_dir, repo_path) = create_test_repo();
    for i in 1..=3 {
        create_test_commit(&repo_path, &format!("f{}.txt", i), "c", &format!("Commit {}", i));
    }
    let repository = GitRepository::discover(&repo_path).unwrap();
    let mut stream = repository.get_commits_streaming(Some(2)).unwrap();
    let first = stream.try_next().unwrap().unwrap();
    assert_eq!(first.summary, "Commit 3");
    let second = stream.try_next().unwrap().unwrap();
    assert_eq!(second.summary, "Commit 2");
    assert!(stream.try_next().is_none());
    assert!(stream.is_complete());
    assert_eq!(stream.loaded_count(), 2);
}

#[test]
fn test_repository_name_fallback() {
    assert_eq!(gitk_rs::repository::repository_name(Some("proj".to_string())), "proj");
    assert_eq!(gitk_rs::repository::repository_name(None), "Unknown");
}

fn write_file(dir: &str, name: &str, content: &str) {
    let mut f = tempfile::NamedTempFile::new_in(dir).unwrap();
    f.write_all(content.as_bytes()).unwrap();
    f.persist(Path::new(dir).join(name)).unwrap();
}
