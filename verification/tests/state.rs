use gitk_rs::app_state::AppState;
use gitk_rs::config::{
    add_recent_repository, remove_recent_repository, BranchColorSettings, DiffSettings, PerformanceSettings, Theme,
};
use gitk_rs::repository::GitRepository;
use gitk_rs::shortcuts::{shortcut_action, AppAction, ShortcutKey};

fn create_test_repo() -> (tempfile::TempDir, String) {
    let dir = tempfile::TempDir::new().unwrap();
    let repo = git2::Repository::init(dir.path()).unwrap();
    let mut cfg = repo.config().unwrap();
    cfg.set_str("user.name", "Test User").unwrap();
    cfg.set_str("user.email", "test@example.com").unwrap();
    let path = dir.path().to_str().unwrap().to_string();
    (dir, path)
}

fn create_test_commit(path: &str, filename: &str, content: &str, message: &str) -> String {
    let repo = git2::Repository::open(path).unwrap();
    let blob = repo.blob(content.as_bytes()).unwrap();
    let parent = repo.head().ok().and_then(|h| h.peel_to_commit().ok());
    let base_tree = parent.as_ref().map(|c| c.tree().unwrap());
    let mut builder = repo.treebuilder(base_tree.as_ref()).unwrap();
    builder.insert(filename, blob, 0o100644).unwrap();
    let tree = repo.find_tree(builder.write().unwrap()).unwrap();
    let when = match &parent {
        Some(c) => c.time().seconds() + 1,
        None => 1_700_000_000,
    };
    let sig = git2::Signature::new("Test User", "test@example.com", &git2::Time::new(when, 0)).unwrap();
    let parents: Vec<&git2::Commit> = parent.iter().collect();
    let oid = repo.commit(Some("HEAD"), &sig, &sig, message, &tree, &parents).unwrap();
    let mut opts = git2::build::CheckoutBuilder::new();
    opts.force();
    repo.checkout_head(Some(&mut opts)).unwrap();
    oid.to_string()
}

#[test]
fn test_recent_repositories_move_to_front() {
    let mut list = vec!["/a".to_string(), "/b".to_string(), "/c".to_string()];
    add_recent_repository(&mut list, 10, "/b");
    assert_eq!(list, vec!["/b".to_string(), "/a".to_string(), "/c".to_string()]);
    add_recent_repository(&mut list, 2, "/d");
    assert_eq!(list, vec!["/d".to_string(), "/b".to_string()]);
    remove_recent_repository(&mut list, "/d");
    assert_eq!(list, vec!["/b".to_string()]);
    add_recent_repository(&mut list, 0, "/e");
    assert!(list.is_empty());
}

#[test]
fn test_settings_defaults() {
    let colors = BranchColorSettings::default();
    assert!(colors.use_branch_colors);
    assert_eq!(colors.main_branch_color, "#2E7D32");
    assert_eq!(colors.custom_patterns.len(), 2);
    assert_eq!(colors.custom_patterns[1].pattern, "hotfix/.*");
    let diff = DiffSettings::default();
    assert_eq!(diff.context_lines, 3);
    assert_eq!(diff.max_file_size_kb, 1024);
    let perf = PerformanceSettings::default();
    assert_eq!(perf.max_commits_to_load, 2000);
    assert_eq!(perf.commit_batch_size, 100);
    assert_eq!(Theme::Auto, Theme::Auto);
}

#[test]
fn test_shortcuts_mapping() {
    assert_eq!(shortcut_action(ShortcutKey::O, true, false), Some(AppAction::OpenRepository));
    assert_eq!(shortcut_action(ShortcutKey::O, false, true), None);
    assert_eq!(shortcut_action(ShortcutKey::F5, false, false), None);
    assert_eq!(shortcut_action(ShortcutKey::F5, false, true), Some(AppAction::Refresh));
    assert_eq!(shortcut_action(ShortcutKey::PageDown, false, true), Some(AppAction::Navigate(10)));
    assert_eq!(shortcut_action(ShortcutKey::ArrowUp, false, false), None);
    assert_eq!(shortcut_action(ShortcutKey::Num2, true, true), Some(AppAction::ViewList));
}

#[test]
fn test_app_state_initial() {
    let state = AppState::new();
    assert!(!state.has_repository());
    assert!(!state.is_streaming());
    assert_eq!(state.commit_limit, 1000);
    assert!(state.get_branches().is_empty());
    assert!(!state.is_detached_head());
    assert!(state.get_selected_commit().is_none());
}

#[test]
fn test_app_state_streams_and_navigates() {
    let (_dir, path) = create_test_repo();
    create_test_commit(&path, "a.txt", "1", "First");
    create_test_commit(&path, "b.txt", "2", "Second");
    let third = create_test_commit(&path, "c.txt", "3", "Third");
    let repo = GitRepository::discover(&path).unwrap();
    let mut state = AppState::new();
    state.set_repository(repo, Ok(vec![]), 0);
    assert!(state.has_repository());
    assert!(state.is_streaming());
    assert!(state.poll_commit_stream());
    assert_eq!(state.commits.len(), 3);
    assert!(!state.is_streaming());
    assert!(state.stream_complete);
    assert_eq!(state.commits[0].id, third);
    assert!(state.get_current_branch().is_some());
    state.navigate_to_last_commit();
    assert_eq!(state.selected_commit_index, Some(2));
    state.navigate_commits(-5);
    assert_eq!(state.selected_commit_index, Some(0));
    assert_eq!(state.selected_commit.as_deref(), Some(third.as_str()));
    assert_eq!(state.get_selected_commit().unwrap().summary, "Third");
    state.navigate_commits(i32::MIN);
    assert_eq!(state.selected_commit_index, Some(0));
    assert!(state.apply_action(AppAction::FocusSearch));
    assert!(state.focus_search);
    assert!(!state.apply_action(AppAction::Quit));
}

#[test]
fn test_app_state_refuses_bad_input() {
    let (_dir, path) = create_test_repo();
    create_test_commit(&path, "a.txt", "1", "First");
    let repo = GitRepository::discover(&path).unwrap();
    let mut state = AppState::new();
    state.set_repository(repo, Ok(vec![]), 0);
    state.select_commit("not-a-sha!".to_string());
    assert_eq!(
        state.error_message.as_deref(),
        Some("Invalid input: Please check your input and try again.")
    );
    state.clear_error();
    assert!(state.error_message.is_none());
    state.switch_to_branch("no-such-branch");
    assert_eq!(state.error_message.as_deref(), Some("Branch 'no-such-branch' not found"));
    state.search_commits("");
    assert_eq!(
        state.error_message.as_deref(),
        Some("Invalid input: Please check your input and try again.")
    );
}

#[test]
fn test_app_state_search() {
    let (_dir, path) = create_test_repo();
    create_test_commit(&path, "a.txt", "1", "Add feature A");
    create_test_commit(&path, "b.txt", "2", "Fix bug");
    let repo = GitRepository::discover(&path).unwrap();
    let mut state = AppState::new();
    state.set_repository(repo, Ok(vec![]), 0);
    state.search_commits("feature");
    assert_eq!(state.search_query, "feature");
    assert_eq!(state.commits.len(), 1);
    assert_eq!(state.commits[0].summary, "Add feature A");
    assert!(state.error_message.is_none());
}
