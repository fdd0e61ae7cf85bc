use gitk_rs::errors::InputValidator;
use gitk_rs::manager::is_current_branch;
use gitk_rs::models::{DiffStatus, GitCommit, GitSignature};
use gitk_rs::operations::OperationType;
use gitk_rs::platform::{FileSystemSecurity, PlatformSecurity};
use gitk_rs::remotes::{push_refspecs, PushConfig, RemoteManager};
use gitk_rs::repository::GitRepository;
use gitk_rs::security::InputSanitizer;
use gitk_rs::stash::{StashCreateConfig, StashManager};
use gitk_rs::tags::{TagCreateConfig, TagManager};
use gitk_rs::views::ViewPreset;
use std::io::Write;
use std::path::Path;

fn create_test_repo() -> (tempfile::TempDir, String) {
    let dir = tempfile::TempDir::new().unwrap();
    let repo = git2::Repository::init(dir.path()).unwrap();
    let mut cfg = repo.config().unwrap();
    cfg.set_str("user.name", "Test User").unwrap();
    cfg.set_str("user.email", "test@example.com").unwrap();
    let path = dir.path().to_str().unwrap().to_string();
    (dir, path)
}

fn create_test_commit(path: &str, filename: &str, content: &str, message: &str) -> String {
    let repo = git2::Repository::open(path).unwrap();
    let blob = repo.blob(content.as_bytes()).unwrap();
    let parent = repo.head().ok().and_then(|h| h.peel_to_commit().ok());
    let base_tree = parent.as_ref().map(|c| c.tree().unwrap());
    let mut builder = repo.treebuilder(base_tree.as_ref()).unwrap();
    builder.insert(filename, blob, 0o100644).unwrap();
    let tree = repo.find_tree(builder.write().unwrap()).unwrap();
    let sig = git2::Signature::new("Test User", "test@example.com", &git2::Time::new(1_700_000_000, 0)).unwrap();
    let parents: Vec<&git2::Commit> = parent.iter().collect();
    let oid = repo.commit(Some("HEAD"), &sig, &sig, message, &tree, &parents).unwrap();
    let mut opts = git2::build::CheckoutBuilder::new();
    opts.force();
    repo.checkout_head(Some(&mut opts)).unwrap();
    oid.to_string()
}

fn commit_with_message(message: &str) -> GitCommit {
    let sig = GitSignature { name: "A".to_string(), email: "a@example.com".to_string(), when: 0 };
    GitCommit {
        id: "abc".to_string(),
        short_id: "abc".to_string(),
        author: sig.clone(),
        committer: sig,
        message: message.to_string(),
        summary: message.to_string(),
        parent_ids: vec!["p".to_string()],
        tree_id: "t".to_string(),
    }
}

#[test]
fn test_drive_letter_paths_depend_on_the_platform() {
    assert!(InputValidator::validate_file_path_on("a:bc", false).is_ok());
    assert!(InputValidator::validate_file_path_on("a:bc", true).is_err());
    assert!(InputValidator::validate_file_path_on("/etc/passwd", false).is_err());
    assert_eq!(InputSanitizer::sanitize_file_path_on("a:bc", false), Ok("a:bc".to_string()));
    assert!(InputSanitizer::sanitize_file_path_on("a:bc", true).is_err());
    assert_eq!(InputSanitizer::sanitize_file_path_on("a\\b/c", false), Ok("a/b/c".to_string()));
    assert_eq!(InputSanitizer::sanitize_file_path_on("a\\b/c", true), Ok("a\\b\\c".to_string()));
}

#[test]
fn test_bug_fix_preset_matches_either_word() {
    let presets = ViewPreset::create_common_presets();
    let f = &presets[3].filter;
    assert_eq!(f.name, "Bug Fixes");
    assert!(f.matches_commit(&commit_with_message("Fix crash on startup")));
    assert!(f.matches_commit(&commit_with_message("A nasty BUG")));
    assert!(!f.matches_commit(&commit_with_message("Update docs")));
}

#[test]
fn test_default_push_refspecs() {
    assert_eq!(push_refspecs(&vec![], &Some("main".to_string())), vec!["refs/heads/main:refs/heads/main".to_string()]);
    assert!(push_refspecs(&vec![], &None).is_empty());
    assert_eq!(push_refspecs(&vec!["a:b".to_string()], &Some("main".to_string())), vec!["a:b".to_string()]);
}

#[test]
fn test_current_branch_refusal() {
    assert!(is_current_branch(&Some("main".to_string()), "main"));
    assert!(!is_current_branch(&Some("main".to_string()), "dev"));
    assert!(!is_current_branch(&None, "main"));
}

#[test]
fn test_check_canonical() {
    assert_eq!(FileSystemSecurity::check_canonical(Ok("/home/u/repo".to_string()), false), Ok("/home/u/repo".to_string()));
    assert!(FileSystemSecurity::check_canonical(Ok("/proc/1".to_string()), false).unwrap_err().starts_with("Path points to unsafe directory: "));
    assert_eq!(FileSystemSecurity::check_canonical(Err("gone".to_string()), false), Err("Cannot canonicalize path: gone".to_string()));
}

#[test]
fn test_protected_tag_needs_force() {
    let (_dir, path) = create_test_repo();
    let id = create_test_commit(&path, "a.txt", "1", "First");
    let repo = GitRepository::discover(&path).unwrap();
    let mut tags = TagManager::new(&repo).unwrap();
    assert!(tags.create_tag("v1.0", &id, TagCreateConfig::default()).unwrap().success);
    let before = tags.get_operation_history().len();
    let refused = tags.delete_tag("v1.0", false).unwrap();
    assert!(!refused.success);
    assert_eq!(refused.message, "Tag 'v1.0' is protected. Use force to delete.");
    assert!(tags.get_tag_info("v1.0").is_ok());
    assert_eq!(tags.get_operation_history().len(), before);
    let forced = tags.delete_tag("v1.0", true).unwrap();
    assert!(forced.success);
    assert!(tags.get_tag_info("v1.0").is_err());
}

#[test]
fn test_stash_all_files_includes_untracked() {
    let (_dir, path) = create_test_repo();
    create_test_commit(&path, "a.txt", "1", "First");
    write_file(&path, "new.txt", "untracked");
    let repo = GitRepository::discover(&path).unwrap();
    let mut stashes = StashManager::new(&repo).unwrap();
    let plain = StashCreateConfig::default();
    assert!(!stashes.has_changes_to_stash(&plain).unwrap());
    let none = stashes.create_stash(StashCreateConfig::default()).unwrap();
    assert_eq!(none.message, "No changes to stash");
    let mut all = StashCreateConfig::default();
    all.all_files = true;
    assert!(stashes.has_changes_to_stash(&all).unwrap());
    assert_eq!(stashes.get_files_to_stash(&all).unwrap(), vec!["new.txt".to_string()]);
}

#[test]
fn test_push_dry_run_sends_nothing() {
    let (_dir, path) = create_test_repo();
    create_test_commit(&path, "a.txt", "1", "First");
    let remote_dir = tempfile::TempDir::new().unwrap();
    git2::Repository::init_bare(remote_dir.path()).unwrap();
    let repo = GitRepository::discover(&path).unwrap();
    let mut remotes = RemoteManager::new(&repo).unwrap();
    let url = remote_dir.path().to_str().unwrap().to_string();
    assert!(remotes.add_remote("origin", &url).unwrap().success);
    let before = remotes.get_operation_history().len();
    let mut cfg = PushConfig::default();
    cfg.dry_run = true;
    let result = remotes.push("origin", cfg).unwrap();
    assert!(result.success);
    assert_eq!(result.operation, OperationType::RemotePush);
    assert_eq!(result.message, "Dry run: nothing pushed");
    assert_eq!(remotes.get_operation_history().len(), before);
    let bare = git2::Repository::open(remote_dir.path()).unwrap();
    assert_eq!(bare.references().unwrap().count(), 0);
}

fn write_file(dir: &str, name: &str, content: &str) {
    let mut f = tempfile::NamedTempFile::new_in(dir).unwrap();
    f.write_all(content.as_bytes()).unwrap();
    f.persist(Path::new(dir).join(name)).unwrap();
}

#[test]
fn test_enhanced_diff_detects_renames() {
    let (_dir, path) = create_test_repo();
    create_test_commit(&path, "old_name.txt", "some content\nthat is long enough\nto be compared\n", "First");
    let repo = git2::Repository::open(&path).unwrap();
    let parent = repo.head().unwrap().peel_to_commit().unwrap();
    let tree = parent.tree().unwrap();
    let blob = tree.get_name("old_name.txt").unwrap().id();
    let mut builder = repo.treebuilder(Some(&tree)).unwrap();
    builder.remove("old_name.txt").unwrap();
    builder.insert("new_name.txt", blob, 0o100644).unwrap();
    let new_tree = repo.find_tree(builder.write().unwrap()).unwrap();
    let sig = git2::Signature::new("Test User", "test@example.com", &git2::Time::new(1_700_000_100, 0)).unwrap();
    let id = repo.commit(Some("HEAD"), &sig, &sig, "Rename", &new_tree, &[&parent]).unwrap().to_string();
    let repository = GitRepository::discover(&path).unwrap();
    let diffs = repository.get_commit_diff_enhanced(&id).unwrap();
    assert_eq!(diffs.len(), 1);
    assert_eq!(diffs[0].status, DiffStatus::Renamed);
    assert_eq!(diffs[0].old_file.as_deref(), Some("old_name.txt"));
    assert_eq!(diffs[0].new_file.as_deref(), Some("new_name.txt"));
}

#[test]
fn test_file_diff_refuses_nul_path() {
    let (_dir, path) = create_test_repo();
    let id = create_test_commit(&path, "a.txt", "1", "First");
    let repository = GitRepository::discover(&path).unwrap();
    assert_eq!(repository.get_file_diff(&id, "a\0b").unwrap_err(), "File path contains null byte");
    assert!(repository.get_file_diff(&id, "a.txt").is_ok());
}

#[test]
fn test_ignored_files_are_no_uncommitted_change() {
    let (_dir, path) = create_test_repo();
    create_test_commit(&path, ".gitignore", "*.log\n", "Ignore logs");
    write_file(&path, "debug.log", "noise");
    let repository = GitRepository::discover(&path).unwrap();
    assert!(!repository.has_uncommitted_changes().unwrap());
    write_file(&path, "notes.txt", "new");
    assert!(repository.has_uncommitted_changes().unwrap());
}

#[test]
fn test_safe_directory_rules_by_platform() {
    assert!(PlatformSecurity::is_safe_directory_on("/home/u/repo", false));
    assert!(!PlatformSecurity::is_safe_directory_on("/proc/1", false));
    assert!(!PlatformSecurity::is_safe_directory_on("C:\\Windows\\Temp\\x", true));
    assert!(PlatformSecurity::is_safe_directory_on("C:\\Users\\me\\repo", true));
}

#[test]
fn test_fetch_refspecs_choice() {
    let listed = vec!["+refs/heads/*:refs/remotes/origin/*".to_string()];
    assert_eq!(gitk_rs::remotes::fetch_refspecs(&vec![], listed.clone()), listed);
    assert_eq!(gitk_rs::remotes::fetch_refspecs(&vec!["a:b".to_string()], listed), vec!["a:b".to_string()]);
}

#[test]
fn test_tag_message_and_tagger_choice() {
    let mut cfg = TagCreateConfig::default();
    assert_eq!(gitk_rs::tags::annotated_message(&cfg), "Tag created");
    assert!(gitk_rs::tags::tagger_identity(&cfg).is_none());
    cfg.message = Some("Release one".to_string());
    cfg.tagger = Some(gitk_rs::tags::TagSignature { name: "Ann".to_string(), email: "ann@example.com".to_string(), when: 0 });
    assert_eq!(gitk_rs::tags::annotated_message(&cfg), "Release one");
    assert_eq!(gitk_rs::tags::tagger_identity(&cfg), Some(("Ann".to_string(), "ann@example.com".to_string())));
    assert_eq!(gitk_rs::tags::fallback_identity(), ("Git User".to_string(), "user@example.com".to_string()));
}

#[test]
fn test_annotated_tag_keeps_its_message() {
    let (_dir, path) = create_test_repo();
    let id = create_test_commit(&path, "a.txt", "1", "First");
    let repo = GitRepository::discover(&path).unwrap();
    let mut tags = TagManager::new(&repo).unwrap();
    let mut cfg = TagCreateConfig::default();
    cfg.tag_type = gitk_rs::tags::TagType::Annotated;
    cfg.message = Some("Release one".to_string());
    assert!(tags.create_tag("r1", &id, cfg).unwrap().success);
    let info = tags.get_tag_info("r1").unwrap();
    assert_eq!(info.message.as_deref(), Some("Release one"));
}

#[test]
fn test_stash_message_and_options() {
    assert_eq!(gitk_rs::stash::wip_message(&Some("main".to_string()), &Some("Fix it".to_string())), "WIP on main: Fix it");
    assert_eq!(gitk_rs::stash::wip_message(&None, &None), "WIP on detached: no commits");
    let mut cfg = StashCreateConfig::default();
    cfg.all_files = true;
    cfg.keep_index = true;
    let o = gitk_rs::stash::stash_options(&cfg);
    assert!(o.keep_index && o.include_untracked && o.include_ignored);
}

#[test]
fn test_picked_commit_message() {
    let sig = gitk_rs::libgit::SigFacts { name: Some("Ann".to_string()), email: Some("ann@example.com".to_string()), when: 0 };
    assert_eq!(gitk_rs::commits::picked_message("Fix".to_string(), false, &sig), "Fix");
    assert_eq!(gitk_rs::commits::picked_message("Fix".to_string(), true, &sig), "Fix\n\nSigned-off-by: Ann <ann@example.com>");
    assert_eq!(gitk_rs::commits::cherry_pick_message(None), "Cherry-picked commit");
    assert_eq!(gitk_rs::commits::cherry_pick_message(Some("Orig".to_string())), "Orig");
}
