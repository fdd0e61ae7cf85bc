use gitk_rs::commits::{CommitOperations, ResetConfig};
use gitk_rs::errors::{RetryDecision, RetrySchedule};
use gitk_rs::libgit::ObjKind;
use gitk_rs::manager::GitOperations;
use gitk_rs::operations::{check_ref_name, OperationType};
use gitk_rs::remotes::PullConfig;
use gitk_rs::repository::GitRepository;
use gitk_rs::security::RateLimiter;
use gitk_rs::stash::StashManager;
use gitk_rs::tags::{compare_version_tags, sort_tags, SortOrder, TagInfo, TagSortBy, TagType};
use gitk_rs::views::{ViewFilter, ViewManager};

fn create_test_repo() -> (tempfile::TempDir, String) {
    let dir = tempfile::TempDir::new().unwrap();
    let repo = git2::Repository::init(dir.path()).unwrap();
    let mut cfg = repo.config().unwrap();
    cfg.set_str("user.name", "Test User").unwrap();
    cfg.set_str("user.email", "test@example.com").unwrap();
    let path = dir.path().to_str().unwrap().to_string();
    (dir, path)
}

fn create_test_commit(path: &str, filename: &str, content: &str, message: &str) -> String {
    let repo = git2::Repository::open(path).unwrap();
    let blob = repo.blob(content.as_bytes()).unwrap();
    let parent = repo.head().ok().and_then(|h| h.peel_to_commit().ok());
    let base_tree = parent.as_ref().map(|c| c.tree().unwrap());
    let mut builder = repo.treebuilder(base_tree.as_ref()).unwrap();
    builder.insert(filename, blob, 0o100644).unwrap();
    let tree = repo.find_tree(builder.write().unwrap()).unwrap();
    let when = match &parent {
        Some(c) => c.time().seconds() + 1,
        None => 1_700_000_000,
    };
    let sig = git2::Signature::new("Test User", "test@example.com", &git2::Time::new(when, 0)).unwrap();
    let parents: Vec<&git2::Commit> = parent.iter().collect();
    let oid = repo.commit(Some("HEAD"), &sig, &sig, message, &tree, &parents).unwrap();
    let mut opts = git2::build::CheckoutBuilder::new();
    opts.force();
    repo.checkout_head(Some(&mut opts)).unwrap();
    oid.to_string()
}

fn tag(name: &str) -> TagInfo {
    TagInfo {
        name: name.to_string(),
        target_oid: "0".repeat(40),
        target_type: ObjKind::Commit,
        tag_type: TagType::Lightweight,
        message: None,
        tagger: None,
        created_date: None,
    }
}

#[test]
fn test_law_rate_limit_window() {
    let mut limiter = RateLimiter::new(3, 100);
    let t0: u64 = 10_000_000_000;
    assert!(limiter.check_rate_limit_at(t0).is_ok());
    assert!(limiter.check_rate_limit_at(t0 + 1).is_ok());
    assert!(limiter.check_rate_limit_at(t0 + 2).is_ok());
    assert_eq!(limiter.check_rate_limit_at(t0 + 3), Err("Rate limit exceeded".to_string()));
    assert!(limiter.check_rate_limit_at(t0 + 1_000_000_001).is_ok());
}

#[test]
fn test_law_history_is_capped() {
    let (_dir, path) = create_test_repo();
    create_test_commit(&path, "a.txt", "1", "First");
    let second = create_test_commit(&path, "b.txt", "2", "Second");
    let repo = GitRepository::discover(&path).unwrap();
    let mut ops = CommitOperations::new(&repo).unwrap();
    for _ in 0..105 {
        assert!(ops.reset(&second, ResetConfig::default()).unwrap().success);
    }
    assert_eq!(ops.get_operation_history().len(), 100);
}

#[test]
fn test_law_default_view_stays() {
    let mut vm = ViewManager::new();
    assert_eq!(vm.remove_view("Default"), Err("Cannot remove default view".to_string()));
    vm.add_view("Mine".to_string(), ViewFilter::new("Mine"));
    assert!(vm.switch_view("Mine").is_ok());
    assert_eq!(vm.get_current_view_name(), "Mine");
    assert!(vm.remove_view("Mine").is_ok());
    assert_eq!(vm.get_current_view_name(), "Default");
    assert!(vm.get_current_view().is_some());
    assert!(vm.switch_view("Gone").is_err());
}

#[test]
fn test_law_head_lookup_after_loading() {
    let (_dir, path) = create_test_repo();
    let id = create_test_commit(&path, "a.txt", "1", "First");
    let repo = GitRepository::discover(&path).unwrap();
    let refs = repo.get_ref_manager().unwrap();
    let head = refs.get_ref("HEAD").unwrap();
    assert_eq!(head.target, id);
    let branch = refs.get_current_branch().unwrap();
    let full = format!("refs/heads/{}", branch);
    assert_eq!(refs.get_ref(&full).unwrap().target, id);
    assert!(!refs.is_detached_head());
    assert!(refs.is_commit_on_branch(&repo, &id, &branch).unwrap());
    assert!(!refs.is_commit_on_branch(&repo, &id, "no-such-branch").unwrap());
}

#[test]
fn test_law_version_order() {
    assert_eq!(compare_version_tags("v1.2.0", "v1.10.0"), std::cmp::Ordering::Less);
    assert_eq!(compare_version_tags("v2.0", "v2.0"), std::cmp::Ordering::Equal);
    let sorted = sort_tags(vec![tag("v1.10.0"), tag("v1.2.0"), tag("v1.9.1")], TagSortBy::Version, SortOrder::Ascending, 0);
    let names: Vec<&str> = sorted.iter().map(|t| t.name.as_str()).collect();
    assert_eq!(names, vec!["v1.2.0", "v1.9.1", "v1.10.0"]);
    let sorted = sort_tags(vec![tag("b"), tag("a"), tag("c")], TagSortBy::Name, SortOrder::Descending, 0);
    let names: Vec<&str> = sorted.iter().map(|t| t.name.as_str()).collect();
    assert_eq!(names, vec!["c", "b", "a"]);
}

#[test]
fn test_law_retry_backoff() {
    let mut s = RetrySchedule::new(3, 1500);
    assert_eq!(s.after_failure(true), RetryDecision::Retry { delay_ms: 1500 });
    s.record_attempt();
    assert_eq!(s.after_failure(true), RetryDecision::Retry { delay_ms: 3000 });
    s.record_attempt();
    assert_eq!(s.after_failure(true), RetryDecision::Retry { delay_ms: 5000 });
    s.record_attempt();
    assert_eq!(s.after_failure(true), RetryDecision::GiveUp);
    let mut t = RetrySchedule::new(3, 100);
    assert_eq!(t.after_failure(false), RetryDecision::GiveUp);
}

#[test]
fn test_clear_stashes_when_there_are_none() {
    let (_dir, path) = create_test_repo();
    create_test_commit(&path, "a.txt", "1", "First");
    let repo = GitRepository::discover(&path).unwrap();
    let mut stashes = StashManager::new(&repo).unwrap();
    let result = stashes.clear_all_stashes().unwrap();
    assert!(result.success);
    assert_eq!(result.operation, OperationType::StashDrop);
    assert_eq!(result.message, "No stashes to clear");
    assert!(result.stash_index.is_none());
    assert!(stashes.get_operation_history().is_empty());
}

#[test]
fn test_workdir_is_the_summary_path() {
    let (_dir, path) = create_test_repo();
    create_test_commit(&path, "a.txt", "1", "First");
    let repo = GitRepository::discover(&path).unwrap();
    assert_eq!(repo.workdir(), repo.info().path.as_str());
    let (has_worktree, worktree) = repo.get_repo_info_safe().unwrap();
    assert!(has_worktree);
    assert!(!worktree.unwrap().ends_with('/'));
}

#[test]
fn test_pull_refuses_an_invalid_remote_name() {
    let (_dir, path) = create_test_repo();
    create_test_commit(&path, "a.txt", "1", "First");
    let repo = GitRepository::discover(&path).unwrap();
    let mut ops = GitOperations::new(&repo).unwrap();
    let expected = check_ref_name("bad..name", "remote").unwrap_err();
    let result = ops.pull("bad..name", PullConfig::default()).unwrap();
    assert!(!result.success);
    assert_eq!(result.operation, OperationType::RemotePull);
    assert_eq!(result.message, expected);
    assert_eq!(result.remote_name, "bad..name");
    assert!(ops.get_operation_history().is_empty());
}

#[test]
fn test_refresh_all_views_loads_the_named_view() {
    let mut vm = ViewManager::new();
    vm.refresh_all_views_with(vec![("Default".to_string(), Ok(Vec::new())), ("Gone".to_string(), Ok(Vec::new()))], 42);
    let view = vm.get_current_view().unwrap();
    assert_eq!(view.last_updated, Some(42));
    assert!(view.commits.is_empty());
    assert!(!view.is_loading);
    vm.refresh_all_views_with(vec![("Default".to_string(), Err("failed".to_string()))], 50);
    assert_eq!(vm.get_current_view().unwrap().last_updated, Some(42));
}
