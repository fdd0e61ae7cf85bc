//! Plain data model of commits, diffs and repository summaries.
//!
//! Times are seconds since the Unix epoch (UTC).

use vstd::prelude::*;

verus! {

/// Author or committer of a commit.
#[derive(Debug, Clone)]
pub struct GitSignature {
    pub name: String,
    pub email: String,
    /// Seconds since the Unix epoch.
    pub when: i64,
}

/// A commit as shown in the history list.
#[derive(Debug, Clone)]
pub struct GitCommit {
    pub id: String,
    pub short_id: String,
    pub author: GitSignature,
    pub committer: GitSignature,
    pub message: String,
    pub summary: String,
    pub parent_ids: Vec<String>,
    pub tree_id: String,
}

/// The diff of one file.
#[derive(Debug, Clone)]
pub struct GitDiff {
    pub old_file: Option<String>,
    pub new_file: Option<String>,
    pub hunks: Vec<GitHunk>,
    pub stats: GitDiffStats,
    pub is_binary: bool,
    pub status: DiffStatus,
    /// Similarity percentage of renames and copies.
    pub similarity: Option<u32>,
}

/// One hunk of a file diff.
#[derive(Debug, Clone)]
pub struct GitHunk {
    pub old_start: u32,
    pub old_lines: u32,
    pub new_start: u32,
    pub new_lines: u32,
    pub header: String,
    pub lines: Vec<GitDiffLine>,
}

/// One line of a hunk; `origin` is ' ', '+' or '-' (or another marker).
#[derive(Debug, Clone)]
pub struct GitDiffLine {
    pub origin: char,
    pub content: String,
    pub old_lineno: Option<u32>,
    pub new_lineno: Option<u32>,
}

/// Totals of a diff.
#[derive(Debug, Clone, Copy, PartialEq, Eq, Structural)]
pub struct GitDiffStats {
    pub files_changed: usize,
    pub insertions: usize,
    pub deletions: usize,
}

/// Kind of change a file diff records.
#[derive(Debug, Clone, Copy, PartialEq, Eq, Structural)]
pub enum DiffStatus {
    Added,
    Deleted,
    Modified,
    Renamed,
    Copied,
    Ignored,
    Untracked,
    Typechange,
}

/// Summary of an opened repository.
#[derive(Debug, Clone)]
pub struct RepositoryInfo {
    pub path: String,
    pub name: String,
    pub is_bare: bool,
    pub head_branch: Option<String>,
    pub branches: Vec<String>,
    pub tags: Vec<String>,
    pub remotes: Vec<String>,
}

/// An entry of a directory listing.
#[derive(Debug, Clone)]
pub struct FileEntry {
    pub name: String,
    pub path: String,
    pub is_dir: bool,
    pub size: Option<u64>,
    pub mode: Option<u32>,
}

/// File mode of a tree entry.
#[derive(Debug, Clone, Copy, PartialEq, Eq, Structural)]
pub enum EntryMode {
    Unreadable,
    Tree,
    Blob,
    BlobGroupWritable,
    BlobExecutable,
    Link,
    Commit,
}

/// An entry of a Git tree.
#[derive(Debug, Clone)]
pub struct TreeEntry {
    pub name: String,
    pub path: String,
    pub id: String,
    pub filemode: EntryMode,
    pub is_tree: bool,
}

} // verus!
