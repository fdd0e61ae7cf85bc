//! Diffs of commits, their trees, and their parents.

use vstd::prelude::*;
use crate::libgit::{
    commit_facts, detect_renames, tree_diff, delta_at, delta_count, diff_counts, hunk_count, hunk_line,
    hunk_line_count, hunk_range, parse_oid, patch_of, tree_items, DeltaFacts, DeltaKind, HunkRange,
    TreeItem,
};
use crate::models::{DiffStatus, EntryMode, GitCommit, GitDiff, GitDiffLine, GitDiffStats, GitHunk, TreeEntry};
use crate::repository::{error_text, GitRepository};
use crate::text::{append_str, concat, decimal, owned, u64_to_string};

verus! {

/// The diff status of a kind of change; kinds a commit diff does not
/// produce count as modifications.
pub open spec fn status_of_kind(k: DeltaKind) -> DiffStatus {
    match k {
        DeltaKind::Added => DiffStatus::Added,
        DeltaKind::Deleted => DiffStatus::Deleted,
        DeltaKind::Modified => DiffStatus::Modified,
        DeltaKind::Renamed => DiffStatus::Renamed,
        DeltaKind::Copied => DiffStatus::Copied,
        DeltaKind::Ignored => DiffStatus::Ignored,
        DeltaKind::Untracked => DiffStatus::Untracked,
        DeltaKind::Typechange => DiffStatus::Typechange,
        _ => DiffStatus::Modified,
    }
}

/// Each kind of change a commit diff reports gets the diff status of the
/// same name: an added file is Added, a deleted one Deleted, and so on.
pub proof fn law_status_names_kind(k: DeltaKind)
    ensures
        k == DeltaKind::Added ==> status_of_kind(k) == DiffStatus::Added,
        k == DeltaKind::Deleted ==> status_of_kind(k) == DiffStatus::Deleted,
        k == DeltaKind::Modified ==> status_of_kind(k) == DiffStatus::Modified,
        k == DeltaKind::Renamed ==> status_of_kind(k) == DiffStatus::Renamed,
        k == DeltaKind::Copied ==> status_of_kind(k) == DiffStatus::Copied,
        k == DeltaKind::Ignored ==> status_of_kind(k) == DiffStatus::Ignored,
        k == DeltaKind::Untracked ==> status_of_kind(k) == DiffStatus::Untracked,
        k == DeltaKind::Typechange ==> status_of_kind(k) == DiffStatus::Typechange,
{
}

/// Different kinds of change that a commit diff reports never share a
/// status.
pub proof fn law_status_distinguishes_kinds(a: DeltaKind, b: DeltaKind)
    requires
        a != b,
        !(a is Unmodified || a is Unreadable || a is Conflicted),
        !(b is Unmodified || b is Unreadable || b is Conflicted),
    ensures
        status_of_kind(a) != status_of_kind(b),
{
}

/// The diff status of a kind of change.
pub fn delta_to_status(k: DeltaKind) -> (r: DiffStatus)
    ensures
        r == status_of_kind(k),
{
    match k {
        DeltaKind::Added => DiffStatus::Added,
        DeltaKind::Deleted => DiffStatus::Deleted,
        DeltaKind::Modified => DiffStatus::Modified,
        DeltaKind::Renamed => DiffStatus::Renamed,
        DeltaKind::Copied => DiffStatus::Copied,
        DeltaKind::Ignored => DiffStatus::Ignored,
        DeltaKind::Untracked => DiffStatus::Untracked,
        DeltaKind::Typechange => DiffStatus::Typechange,
        _ => DiffStatus::Modified,
    }
}

/// The header line of a hunk: `@@ -old_start,old_lines +new_start,new_lines @@`.
pub open spec fn hunk_header(h: HunkRange) -> Seq<char> {
    "@@ -"@ + decimal(h.old_start as nat) + ","@ + decimal(h.old_lines as nat) + " +"@ + decimal(
        h.new_start as nat,
    ) + ","@ + decimal(h.new_lines as nat) + " @@"@
}

/// The header line of a hunk.
pub fn format_hunk_header(h: &HunkRange) -> (r: String)
    ensures
        r@ == hunk_header(*h),
{
    let mut s = concat("@@ -", u64_to_string(h.old_start as u64).as_str());
    append_str(&mut s, ",");
    append_str(&mut s, u64_to_string(h.old_lines as u64).as_str());
    append_str(&mut s, " +");
    append_str(&mut s, u64_to_string(h.new_start as u64).as_str());
    append_str(&mut s, ",");
    append_str(&mut s, u64_to_string(h.new_lines as u64).as_str());
    append_str(&mut s, " @@");
    s
}

/// Number of lines of `lines` whose origin is `c`.
pub open spec fn origin_count(lines: Seq<GitDiffLine>, c: char) -> nat
    decreases lines.len(),
{
    if lines.len() == 0 {
        0
    } else {
        origin_count(lines.drop_last(), c) + if lines.last().origin == c { 1nat } else { 0nat }
    }
}

/// Number of lines of all the hunks whose origin is `c`.
pub open spec fn hunks_origin_count(hs: Seq<GitHunk>, c: char) -> nat
    decreases hs.len(),
{
    if hs.len() == 0 {
        0
    } else {
        hunks_origin_count(hs.drop_last(), c) + origin_count(hs.last().lines@, c)
    }
}

/// A count that stops at `usize::MAX`.
pub open spec fn capped(n: nat) -> nat {
    if n <= usize::MAX { n } else { usize::MAX as nat }
}

/// Whether `h` is the hunk of the range `r` (its header included).
pub open spec fn hunk_of_range(h: GitHunk, r: HunkRange) -> bool {
    &&& h.header@ == hunk_header(r)
    &&& h.old_start == r.old_start
    &&& h.old_lines == r.old_lines
    &&& h.new_start == r.new_start
    &&& h.new_lines == r.new_lines
}

/// Whether `h` is the hunk of some range.
pub open spec fn has_range(h: GitHunk) -> bool {
    exists|x: HunkRange| hunk_of_range(h, x)
}

/// The hunks of a patch, with the numbers of added and removed lines (a
/// count stops at `usize::MAX`). Hunks and lines that cannot be read are
/// left out; a hunk whose number of lines cannot be read is an error.
pub fn hunks_of(patch: &git2::Patch) -> (r: Result<(Vec<GitHunk>, usize, usize), String>)
    ensures
        r matches Ok((hs, ins, del)) ==> {
            &&& ins == capped(hunks_origin_count(hs@, '+'))
            &&& del == capped(hunks_origin_count(hs@, '-'))
            &&& forall|i: int| 0 <= i < hs@.len() ==> has_range(#[trigger] hs@[i])
        },
{
    let mut hunks: Vec<GitHunk> = Vec::new();
    let mut insertions: usize = 0;
    let mut deletions: usize = 0;
    let n = hunk_count(patch);
    let mut h: usize = 0;
    while h < n
        invariant
            h <= n,
            insertions == capped(hunks_origin_count(hunks@, '+')),
            deletions == capped(hunks_origin_count(hunks@, '-')),
            forall|i: int| 0 <= i < hunks@.len() ==> has_range(#[trigger] hunks@[i]),
        decreases n - h,
    {
        match hunk_range(patch, h) {
            Ok(range) => {
                let count = match hunk_line_count(patch, h) {
                    Ok(c) => c,
                    Err(e) => {
                        return Err(error_text(&e));
                    },
                };
                let mut lines: Vec<GitDiffLine> = Vec::new();
                let mut l: usize = 0;
                while l < count
                    invariant
                        l <= count,
                        insertions == capped(hunks_origin_count(hunks@, '+') + origin_count(lines@, '+')),
                        deletions == capped(hunks_origin_count(hunks@, '-') + origin_count(lines@, '-')),
                    decreases count - l,
                {
                    match hunk_line(patch, h, l) {
                        Ok(line) => {
                            if line.origin == '+' && insertions < usize::MAX {
                                insertions = insertions + 1;
                            } else if line.origin == '-' && deletions < usize::MAX {
                                deletions = deletions + 1;
                            }
                            let ghost before = lines@;
                            lines.push(GitDiffLine {
                                origin: line.origin,
                                content: line.content,
                                old_lineno: line.old_lineno,
                                new_lineno: line.new_lineno,
                            });
                            assert(lines@.drop_last() =~= before);
                        },
                        Err(_) => {},
                    }
                    l = l + 1;
                }
                let header = format_hunk_header(&range);
                let ghost before = hunks@;
                let hunk = GitHunk {
                    old_start: range.old_start,
                    old_lines: range.old_lines,
                    new_start: range.new_start,
                    new_lines: range.new_lines,
                    header,
                    lines,
                };
                assert(hunk_of_range(hunk, range));
                hunks.push(hunk);
                assert(hunks@.drop_last() =~= before);
                assert(forall|i: int| 0 <= i < before.len() ==> hunks@[i] == before[i]);
            },
            Err(_) => {},
        }
        h = h + 1;
    }
    Ok((hunks, insertions, deletions))
}

/// Whether a delta has a binary side.
pub open spec fn delta_is_binary(f: DeltaFacts) -> bool {
    f.old_binary || f.new_binary
}

/// The file diff of a delta, without hunks.
pub open spec fn plain_diff(d: GitDiff, f: DeltaFacts) -> bool {
    &&& d.old_file == f.old_path
    &&& d.new_file == f.new_path
    &&& d.status == status_of_kind(f.kind)
    &&& d.is_binary == delta_is_binary(f)
    &&& d.similarity is None
    &&& d.hunks@.len() == 0
    &&& d.stats == (GitDiffStats { files_changed: 1, insertions: 0, deletions: 0 })
}

/// Whether `d` is the file diff of some delta, without hunks.
pub open spec fn of_some_delta(d: GitDiff) -> bool {
    exists|f: DeltaFacts| plain_diff(d, f)
}

/// The file diff of a delta, without hunks.
pub fn diff_of_delta(f: DeltaFacts) -> (d: GitDiff)
    ensures
        plain_diff(d, f),
{
    let is_binary = f.old_binary || f.new_binary;
    GitDiff {
        old_file: f.old_path,
        new_file: f.new_path,
        hunks: Vec::new(),
        stats: GitDiffStats { files_changed: 1, insertions: 0, deletions: 0 },
        is_binary,
        status: delta_to_status(f.kind),
        similarity: None,
    }
}

/// The file diffs of the deltas, one for one, without hunks.
pub fn diffs_of_deltas(ds: Vec<DeltaFacts>) -> (r: Vec<GitDiff>)
    ensures
        r@.len() == ds@.len(),
        forall|i: int| 0 <= i < ds@.len() ==> plain_diff(#[trigger] r@[i], ds@[i]),
{
    let mut rest = ds;
    let mut out: Vec<GitDiff> = Vec::new();
    while rest.len() > 0
        invariant
            out@.len() + rest@.len() == ds@.len(),
            rest@ == ds@.subrange(out@.len() as int, ds@.len() as int),
            forall|j: int| 0 <= j < out@.len() ==> plain_diff(#[trigger] out@[j], ds@[j]),
        decreases rest@.len(),
    {
        let f = rest.remove(0);
        out.push(diff_of_delta(f));
    }
    out
}

/// The diff a file diff starts from: no files, no change counted.
pub open spec fn empty_file_diff(d: GitDiff) -> bool {
    &&& d.old_file is None
    &&& d.new_file is None
    &&& d.hunks@.len() == 0
    &&& d.stats == (GitDiffStats { files_changed: 0, insertions: 0, deletions: 0 })
    &&& !d.is_binary
    &&& d.status == DiffStatus::Modified
    &&& d.similarity is None
}

/// The file diff of the last of the deltas (the empty diff where there is
/// none), without hunks.
pub fn last_delta_diff(ds: Vec<DeltaFacts>) -> (d: GitDiff)
    ensures
        ds@.len() == 0 ==> empty_file_diff(d),
        ds@.len() > 0 ==> plain_diff(d, ds@.last()),
{
    let mut ds = ds;
    match ds.pop() {
        Some(f) => diff_of_delta(f),
        None => GitDiff {
            old_file: None,
            new_file: None,
            hunks: Vec::new(),
            stats: GitDiffStats { files_changed: 0, insertions: 0, deletions: 0 },
            is_binary: false,
            status: DiffStatus::Modified,
            similarity: None,
        },
    }
}

/// The deltas of a diff that can be read, in order.
fn deltas_of(diff: &git2::Diff) -> Vec<DeltaFacts> {
    let n = delta_count(diff);
    let mut out: Vec<DeltaFacts> = Vec::new();
    let mut i: usize = 0;
    while i < n
        invariant
            i <= n,
        decreases n - i,
    {
        match delta_at(diff, i) {
            Some(d) => out.push(d),
            None => {},
        }
        i = i + 1;
    }
    out
}

/// The entry of a tree item: its path is `root/name`, or the name at the
/// top; an entry whose name is not UTF-8 gets the empty name.
pub open spec fn tree_entry_of(e: TreeEntry, item: TreeItem) -> bool {
    let name = match item.name {
        Some(n) => n@,
        None => Seq::<char>::empty(),
    };
    &&& e.name@ == name
    &&& e.path@ == (if item.root@.len() == 0 { name } else { item.root@ + "/"@ + name })
    &&& e.id@ == item.id@
    &&& e.filemode == EntryMode::Tree
    &&& e.is_tree == is_tree_mode(item.filemode)
}

/// Whether `e` is the entry of some tree item.
pub open spec fn of_some_item(e: TreeEntry) -> bool {
    exists|t: TreeItem| tree_entry_of(e, t)
}

/// The entries of tree items, one for one.
pub fn tree_entries(items: &Vec<TreeItem>) -> (r: Vec<TreeEntry>)
    ensures
        r@.len() == items@.len(),
        forall|i: int| 0 <= i < items@.len() ==> tree_entry_of(#[trigger] r@[i], items@[i]),
{
    let mut out: Vec<TreeEntry> = Vec::new();
    let mut i: usize = 0;
    while i < items.len()
        invariant
            i <= items@.len(),
            out@.len() == i,
            forall|j: int| 0 <= j < i ==> tree_entry_of(#[trigger] out@[j], items@[j]),
        decreases items@.len() - i,
    {
        let item = &items[i];
        let name = match &item.name {
            Some(n) => owned(n.as_str()),
            None => String::new(),
        };
        let path = if item.root.as_str().unicode_len() == 0 {
            owned(name.as_str())
        } else {
            let mut p = concat(item.root.as_str(), "/");
            append_str(&mut p, name.as_str());
            p
        };
        let e = TreeEntry {
            name,
            path,
            id: owned(item.id.as_str()),
            filemode: EntryMode::Tree,
            is_tree: item.filemode == 0o040000,
        };
        assert(tree_entry_of(e, items@[i as int]));
        out.push(e);
        i = i + 1;
    }
    out
}

/// Whether a file mode is that of a tree.
pub open spec fn is_tree_mode(mode: i32) -> bool {
    mode == 0o040000
}

/// The diff of the commit `oid` against its first parent (against the
/// empty tree for a root commit), optionally limited to `pathspec`.
fn commit_diff<'a>(repo: &'a git2::Repository, oid: &str, pathspec: Option<&str>) -> Result<git2::Diff<'a>, git2::Error>
    requires
        pathspec matches Some(p) ==> !p@.contains('\0'),
{
    let facts = match commit_facts(repo, oid) {
        Ok(f) => f,
        Err(e) => {
            return Err(e);
        },
    };
    if facts.parent_ids.len() > 0 {
        tree_diff(repo, Some(facts.parent_ids[0].as_str()), oid, pathspec)
    } else {
        tree_diff(repo, None, oid, pathspec)
    }
}

impl GitRepository {
    /// The file diffs of a commit against its first parent, without hunks:
    /// one for each delta of the diff that can be read.
    pub fn get_commit_diff(&self, commit_id: &str) -> (r: Result<Vec<GitDiff>, String>)
        ensures
            !(1 <= commit_id@.len() <= 40 && crate::text::all_hex(commit_id@)) ==> r is Err,
            r matches Ok(v) ==> forall|i: int| 0 <= i < v@.len() ==> of_some_delta(#[trigger] v@[i]),
    {
        let oid = match parse_oid(commit_id) {
            Ok(o) => o,
            Err(e) => {
                return Err(error_text(&e));
            },
        };
        let diff = match commit_diff(self.get_repository(), oid.as_str(), None) {
            Ok(d) => d,
            Err(e) => {
                return Err(error_text(&e));
            },
        };
        let ds = deltas_of(&diff);
        let ghost dv = ds@;
        let out = diffs_of_deltas(ds);
        assert forall|i: int| 0 <= i < out@.len() implies of_some_delta(#[trigger] out@[i]) by {
            assert(plain_diff(out@[i], dv[i]));
        }
        Ok(out)
    }

    /// The diff of one file in a commit: the last delta of the diff
    /// limited to that path, with the hunks of its patch and their line
    /// counts. A path holding a NUL character is refused.
    pub fn get_file_diff(&self, commit_id: &str, file_path: &str) -> (r: Result<GitDiff, String>)
        ensures
            !(1 <= commit_id@.len() <= 40 && crate::text::all_hex(commit_id@)) ==> r is Err,
            file_path@.contains('\0') ==> r is Err,
            (1 <= commit_id@.len() <= 40 && crate::text::all_hex(commit_id@)) && file_path@.contains('\0')
                ==> (r matches Err(m) && m@ == "File path contains null byte"@),
            r matches Ok(d) ==> {
                &&& d.similarity is None
                &&& d.stats.files_changed <= 1
                &&& d.stats.insertions == capped(hunks_origin_count(d.hunks@, '+'))
                &&& d.stats.deletions == capped(hunks_origin_count(d.hunks@, '-'))
                &&& d.stats.files_changed == 0 ==> d.old_file is None && d.new_file is None
                    && !d.is_binary && d.status == DiffStatus::Modified
                &&& forall|i: int| 0 <= i < d.hunks@.len() ==> has_range(#[trigger] d.hunks@[i])
            },
    {
        let oid = match parse_oid(commit_id) {
            Ok(o) => o,
            Err(e) => {
                return Err(error_text(&e));
            },
        };
        if crate::text::str_has_char(file_path, '\0') {
            return Err(owned("File path contains null byte"));
        }
        let diff = match commit_diff(self.get_repository(), oid.as_str(), Some(file_path)) {
            Ok(d) => d,
            Err(e) => {
                return Err(error_text(&e));
            },
        };
        let mut result = last_delta_diff(deltas_of(&diff));
        match patch_of(&diff, 0) {
            Ok(Some(patch)) => match hunks_of(&patch) {
                Ok((hunks, ins, del)) => {
                    result.hunks = hunks;
                    result.stats.insertions = ins;
                    result.stats.deletions = del;
                },
                Err(e) => {
                    return Err(e);
                },
            },
            _ => {},
        }
        Ok(result)
    }

    /// The file diffs of a commit, one for each delta that can be read
    /// once renames are detected, with the hunks of the files that are not
    /// binary and their line counts.
    pub fn get_commit_diff_enhanced(&self, commit_id: &str) -> (r: Result<Vec<GitDiff>, String>)
        ensures
            !(1 <= commit_id@.len() <= 40 && crate::text::all_hex(commit_id@)) ==> r is Err,
            r matches Ok(v) ==> forall|i: int| 0 <= i < v@.len() ==> {
                &&& (#[trigger] v@[i]).stats.files_changed == 1
                &&& v@[i].similarity is None
                &&& v@[i].stats.insertions == capped(hunks_origin_count(v@[i].hunks@, '+'))
                &&& v@[i].stats.deletions == capped(hunks_origin_count(v@[i].hunks@, '-'))
                &&& v@[i].is_binary ==> v@[i].hunks@.len() == 0
                &&& forall|k: int| 0 <= k < v@[i].hunks@.len() ==> has_range(#[trigger] v@[i].hunks@[k])
            },
    {
        let oid = match parse_oid(commit_id) {
            Ok(o) => o,
            Err(e) => {
                return Err(error_text(&e));
            },
        };
        let mut diff = match commit_diff(self.get_repository(), oid.as_str(), None) {
            Ok(d) => d,
            Err(e) => {
                return Err(error_text(&e));
            },
        };
        match detect_renames(&mut diff) {
            Ok(()) => {},
            Err(e) => {
                return Err(error_text(&e));
            },
        }
        let mut rest = deltas_of(&diff);
        let mut out: Vec<GitDiff> = Vec::new();
        while rest.len() > 0
            invariant
                forall|j: int| 0 <= j < out@.len() ==> {
                    &&& (#[trigger] out@[j]).stats.files_changed == 1
                    &&& out@[j].similarity is None
                    &&& out@[j].stats.insertions == capped(hunks_origin_count(out@[j].hunks@, '+'))
                    &&& out@[j].stats.deletions == capped(hunks_origin_count(out@[j].hunks@, '-'))
                    &&& out@[j].is_binary ==> out@[j].hunks@.len() == 0
                    &&& forall|k: int| 0 <= k < out@[j].hunks@.len() ==> has_range(#[trigger] out@[j].hunks@[k])
                },
            decreases rest@.len(),
        {
            let mut d = diff_of_delta(rest.remove(0));
            if !d.is_binary {
                match patch_of(&diff, out.len()) {
                    Ok(Some(patch)) => match hunks_of(&patch) {
                        Ok((hs, a, b)) => {
                            d.hunks = hs;
                            d.stats.insertions = a;
                            d.stats.deletions = b;
                        },
                        Err(e) => {
                            return Err(e);
                        },
                    },
                    _ => {},
                }
            }
            out.push(d);
        }
        Ok(out)
    }

    /// Totals of a commit's diff against its first parent.
    pub fn get_commit_diff_stats(&self, commit_id: &str) -> (r: Result<GitDiffStats, String>)
        ensures
            !(1 <= commit_id@.len() <= 40 && crate::text::all_hex(commit_id@)) ==> r is Err,
    {
        let oid = match parse_oid(commit_id) {
            Ok(o) => o,
            Err(e) => {
                return Err(error_text(&e));
            },
        };
        let diff = match commit_diff(self.get_repository(), oid.as_str(), None) {
            Ok(d) => d,
            Err(e) => {
                return Err(error_text(&e));
            },
        };
        match diff_counts(&diff) {
            Ok(c) => Ok(GitDiffStats { files_changed: c.files_changed, insertions: c.insertions, deletions: c.deletions }),
            Err(e) => Err(error_text(&e)),
        }
    }

    /// The parents of a commit that can be read, in order.
    pub fn get_commit_parents(&self, commit: &GitCommit) -> (r: Result<Vec<GitCommit>, String>)
        ensures
            r is Ok,
            r matches Ok(v) ==> v@.len() <= commit.parent_ids@.len(),
    {
        let mut out: Vec<GitCommit> = Vec::new();
        let mut i: usize = 0;
        while i < commit.parent_ids.len()
            invariant
                i <= commit.parent_ids@.len(),
                out@.len() <= i,
            decreases commit.parent_ids@.len() - i,
        {
            match self.get_commit(commit.parent_ids[i].as_str()) {
                Ok(c) => out.push(c),
                Err(_) => {},
            }
            i = i + 1;
        }
        Ok(out)
    }

    /// The entries of a commit's tree, in pre-order, one for each entry
    /// the walk meets.
    pub fn get_commit_tree_entries(&self, commit_id: &str) -> (r: Result<Vec<TreeEntry>, String>)
        ensures
            !(1 <= commit_id@.len() <= 40 && crate::text::all_hex(commit_id@)) ==> r is Err,
            r matches Ok(v) ==> forall|i: int| 0 <= i < v@.len() ==> of_some_item(#[trigger] v@[i]),
    {
        let oid = match parse_oid(commit_id) {
            Ok(o) => o,
            Err(e) => {
                return Err(error_text(&e));
            },
        };
        let items = match tree_items(self.get_repository(), oid.as_str()) {
            Ok(v) => v,
            Err(e) => {
                return Err(error_text(&e));
            },
        };
        let out = tree_entries(&items);
        assert forall|i: int| 0 <= i < out@.len() implies of_some_item(#[trigger] out@[i]) by {
            assert(tree_entry_of(out@[i], items@[i]));
        }
        Ok(out)
    }
}

} // verus!
