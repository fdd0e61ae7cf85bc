use chrono::TimeZone;
use gitk_rs::models::{DiffStatus, GitCommit, GitDiff, GitDiffLine, GitDiffStats, GitHunk, GitSignature};

fn ymd_hms(y: i32, mo: u32, d: u32, h: u32, mi: u32, s: u32) -> i64 {
    chrono::Utc.with_ymd_and_hms(y, mo, d, h, mi, s).unwrap().timestamp()
}

#[test]
fn test_git_commit_creation() {
    let author = GitSignature {
        name: "John Doe".to_string(),
        email: "john@example.com".to_string(),
        when: ymd_hms(2023, 1, 1, 12, 0, 0),
    };
    let committer = GitSignature {
        name: "Jane Smith".to_string(),
        email: "jane@example.com".to_string(),
        when: ymd_hms(2023, 1, 1, 12, 30, 0),
    };
    let commit = GitCommit {
        id: "abc123def456".to_string(),
        short_id: "abc123d".to_string(),
        author,
        committer,
        message: "Initial commit\n\nThis is the first commit".to_string(),
        summary: "Initial commit".to_string(),
        parent_ids: vec![],
        tree_id: "tree123".to_string(),
    };
    assert_eq!(commit.id, "abc123def456");
    assert_eq!(commit.short_id, "abc123d");
    assert_eq!(commit.author.name, "John Doe");
    assert_eq!(commit.committer.name, "Jane Smith");
    assert_eq!(commit.summary, "Initial commit");
    assert!(commit.parent_ids.is_empty());
}

#[test]
fn test_git_signature_creation() {
    let signature = GitSignature {
        name: "Test User".to_string(),
        email: "test@example.com".to_string(),
        when: chrono::Utc::now().timestamp(),
    };
    assert_eq!(signature.name, "Test User");
    assert_eq!(signature.email, "test@example.com");
    assert!(signature.when <= chrono::Utc::now().timestamp());
}

#[test]
fn test_git_diff_creation() {
    let hunk = GitHunk {
        old_start: 1,
        old_lines: 3,
        new_start: 1,
        new_lines: 4,
        header: "@@ -1,3 +1,4 @@".to_string(),
        lines: vec![
            GitDiffLine { origin: ' ', content: "line 1".to_string(), old_lineno: Some(1), new_lineno: Some(1) },
            GitDiffLine { origin: '+', content: "new line".to_string(), old_lineno: None, new_lineno: Some(2) },
        ],
    };
    let stats = GitDiffStats { files_changed: 1, insertions: 1, deletions: 0 };
    let diff = GitDiff {
        old_file: Some("file.txt".to_string()),
        new_file: Some("file.txt".to_string()),
        hunks: vec![hunk],
        stats,
        is_binary: false,
        status: DiffStatus::Modified,
        similarity: None,
    };
    assert_eq!(diff.old_file, Some("file.txt".to_string()));
    assert_eq!(diff.new_file, Some("file.txt".to_string()));
    assert_eq!(diff.hunks.len(), 1);
    assert_eq!(diff.stats.insertions, 1);
    assert_eq!(diff.stats.deletions, 0);
    assert!(!diff.is_binary);
    assert_eq!(diff.status, DiffStatus::Modified);
}

#[test]
fn test_git_diff_line_creation() {
    let line = GitDiffLine { origin: '+', content: "added line".to_string(), old_lineno: None, new_lineno: Some(10) };
    assert_eq!(line.origin, '+');
    assert_eq!(line.content, "added line");
    assert_eq!(line.old_lineno, None);
    assert_eq!(line.new_lineno, Some(10));
}

#[test]
fn test_diff_status_variants() {
    let statuses = vec![
        DiffStatus::Added,
        DiffStatus::Deleted,
        DiffStatus::Modified,
        DiffStatus::Renamed,
        DiffStatus::Copied,
        DiffStatus::Ignored,
        DiffStatus::Untracked,
        DiffStatus::Typechange,
    ];
    for status in statuses {
        match status {
            DiffStatus::Added => assert_eq!(status, DiffStatus::Added),
            DiffStatus::Deleted => assert_eq!(status, DiffStatus::Deleted),
            DiffStatus::Modified => assert_eq!(status, DiffStatus::Modified),
            DiffStatus::Renamed => assert_eq!(status, DiffStatus::Renamed),
            DiffStatus::Copied => assert_eq!(status, DiffStatus::Copied),
            DiffStatus::Ignored => assert_eq!(status, DiffStatus::Ignored),
            DiffStatus::Untracked => assert_eq!(status, DiffStatus::Untracked),
            DiffStatus::Typechange => assert_eq!(status, DiffStatus::Typechange),
        }
    }
}

#[test]
fn test_commit_with_multiple_parents() {
    let now = chrono::Utc::now().timestamp();
    let commit = GitCommit {
        id: "merge123".to_string(),
        short_id: "merge12".to_string(),
        author: GitSignature { name: "Merger".to_string(), email: "merger@example.com".to_string(), when: now },
        committer: GitSignature { name: "Merger".to_string(), email: "merger@example.com".to_string(), when: now },
        message: "Merge branch 'feature'".to_string(),
        summary: "Merge branch 'feature'".to_string(),
        parent_ids: vec!["parent1".to_string(), "parent2".to_string()],
        tree_id: "tree123".to_string(),
    };
    assert_eq!(commit.parent_ids.len(), 2);
    assert_eq!(commit.parent_ids[0], "parent1");
    assert_eq!(commit.parent_ids[1], "parent2");
}

#[test]
fn test_git_diff_stats() {
    let stats = GitDiffStats { files_changed: 5, insertions: 100, deletions: 50 };
    assert_eq!(stats.files_changed, 5);
    assert_eq!(stats.insertions, 100);
    assert_eq!(stats.deletions, 50);
}

#[test]
fn test_binary_diff() {
    let diff = GitDiff {
        old_file: Some("image.png".to_string()),
        new_file: Some("image.png".to_string()),
        hunks: vec![],
        stats: GitDiffStats { files_changed: 1, insertions: 0, deletions: 0 },
        is_binary: true,
        status: DiffStatus::Modified,
        similarity: None,
    };
    assert!(diff.is_binary);
    assert!(diff.hunks.is_empty());
    assert_eq!(diff.status, DiffStatus::Modified);
}

#[test]
fn test_clone_implementations() {
    let signature = GitSignature {
        name: "Test".to_string(),
        email: "test@example.com".to_string(),
        when: chrono::Utc::now().timestamp(),
    };
    let commit = GitCommit {
        id: "test123".to_string(),
        short_id: "test".to_string(),
        author: signature.clone(),
        committer: signature.clone(),
        message: "Test".to_string(),
        summary: "Test".to_string(),
        parent_ids: vec![],
        tree_id: "tree".to_string(),
    };
    let cloned_commit = commit.clone();
    let cloned_signature = signature.clone();
    assert_eq!(commit.id, cloned_commit.id);
    assert_eq!(signature.name, cloned_signature.name);
}
