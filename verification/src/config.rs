//! Settings of the application that hold no floating-point value, and the
//! list of recently opened repositories.

use vstd::prelude::*;
use crate::text::{owned, string_eq};

verus! {

/// Colour theme.
#[derive(Debug, Clone, Copy, PartialEq, Eq, Structural)]
pub enum Theme {
    Light,
    Dark,
    Auto,
}

/// A branch-name pattern (a regular expression) with its colour and
/// display name.
#[derive(Debug, Clone)]
pub struct BranchPattern {
    pub pattern: String,
    pub color: String,
    pub name: String,
}

/// How branches are coloured (colours are `#RRGGBB`).
#[derive(Debug, Clone)]
pub struct BranchColorSettings {
    pub use_branch_colors: bool,
    pub main_branch_color: String,
    pub feature_branch_color: String,
    pub release_branch_color: String,
    pub hotfix_branch_color: String,
    pub custom_patterns: Vec<BranchPattern>,
}

/// Whether a branch pattern has the given pattern, colour and name.
pub open spec fn pattern_is(p: BranchPattern, pattern: Seq<char>, color: Seq<char>, name: Seq<char>) -> bool {
    p.pattern@ == pattern && p.color@ == color && p.name@ == name
}

impl Default for BranchColorSettings {
    fn default() -> (r: BranchColorSettings)
        ensures
            r.use_branch_colors,
            r.main_branch_color@ == "#2E7D32"@,
            r.feature_branch_color@ == "#1976D2"@,
            r.release_branch_color@ == "#F57C00"@,
            r.hotfix_branch_color@ == "#D32F2F"@,
            r.custom_patterns@.len() == 2,
            pattern_is(r.custom_patterns@[0], "feature/.*"@, "#1976D2"@, "Feature"@),
            pattern_is(r.custom_patterns@[1], "hotfix/.*"@, "#D32F2F"@, "Hotfix"@),
    {
        BranchColorSettings {
            use_branch_colors: true,
            main_branch_color: owned("#2E7D32"),
            feature_branch_color: owned("#1976D2"),
            release_branch_color: owned("#F57C00"),
            hotfix_branch_color: owned("#D32F2F"),
            custom_patterns: vec![
                BranchPattern {
                    pattern: owned("feature/.*"),
                    color: owned("#1976D2"),
                    name: owned("Feature"),
                },
                BranchPattern { pattern: owned("hotfix/.*"), color: owned("#D32F2F"), name: owned("Hotfix") },
            ],
        }
    }
}

/// How diffs are shown.
#[derive(Debug, Clone, Copy, PartialEq, Eq, Structural)]
pub struct DiffSettings {
    pub context_lines: u32,
    pub ignore_whitespace: bool,
    pub show_word_diff: bool,
    pub syntax_highlighting: bool,
    /// Files larger than this many KiB are not diffed.
    pub max_file_size_kb: u64,
}

impl Default for DiffSettings {
    fn default() -> (r: DiffSettings)
        ensures
            r == (DiffSettings {
                context_lines: 3,
                ignore_whitespace: false,
                show_word_diff: true,
                syntax_highlighting: true,
                max_file_size_kb: 1024,
            }),
    {
        DiffSettings {
            context_lines: 3,
            ignore_whitespace: false,
            show_word_diff: true,
            syntax_highlighting: true,
            max_file_size_kb: 1024,
        }
    }
}

/// Limits on loading and caching.
#[derive(Debug, Clone, Copy, PartialEq, Eq, Structural)]
pub struct PerformanceSettings {
    pub max_commits_to_load: usize,
    pub commit_batch_size: usize,
    pub enable_commit_streaming: bool,
    pub cache_diffs: bool,
    pub max_cached_diffs: usize,
}

impl Default for PerformanceSettings {
    fn default() -> (r: PerformanceSettings)
        ensures
            r == (PerformanceSettings {
                max_commits_to_load: 2000,
                commit_batch_size: 100,
                enable_commit_streaming: true,
                cache_diffs: true,
                max_cached_diffs: 50,
            }),
    {
        PerformanceSettings {
            max_commits_to_load: 2000,
            commit_batch_size: 100,
            enable_commit_streaming: true,
            cache_diffs: true,
            max_cached_diffs: 50,
        }
    }
}

/// Number of recent repositories remembered by default.
pub const DEFAULT_MAX_RECENT_REPOS: usize = 10;

/// Whether a path differs from `path`.
pub open spec fn other_than(path: Seq<char>) -> spec_fn(Seq<char>) -> bool {
    |p: Seq<char>| p != path
}

/// The paths of `list` other than `path`, in order.
pub open spec fn without_path(list: Seq<Seq<char>>, path: Seq<char>) -> Seq<Seq<char>> {
    list.filter(other_than(path))
}

/// The list after opening `path`: `path` first, then the others in their
/// order, cut to `max` entries.
pub open spec fn after_adding(list: Seq<Seq<char>>, path: Seq<char>, max: nat) -> Seq<Seq<char>> {
    let l = seq![path] + without_path(list, path);
    if l.len() > max { l.take(max as int) } else { l }
}

/// The views of a list of paths.
pub open spec fn path_views(v: Seq<String>) -> Seq<Seq<char>> {
    v.map_values(|s: String| s@)
}

/// Drops every entry equal to `path`, keeping the others in order.
pub fn remove_recent_repository(list: &mut Vec<String>, path: &str)
    ensures
        path_views(final(list)@) == without_path(path_views(old(list)@), path@),
{
    let ghost all = path_views(list@);
    let mut rest: Vec<String> = Vec::new();
    std::mem::swap(&mut rest, list);
    let total: usize = rest.len();
    let mut kept: Vec<String> = Vec::new();
    let mut n: usize = 0;
    while rest.len() > 0
        invariant
            n + rest@.len() == all.len(),
            all.len() == total,
            path_views(rest@) == all.skip(n as int),
            path_views(kept@) == without_path(all.take(n as int), path@),
        decreases rest@.len(),
    {
        proof {
            reveal(Seq::filter);
        }
        assert(all.take(n as int + 1).drop_last() =~= all.take(n as int));
        assert(path_views(rest@)[0] == rest@[0]@);
        let ghost r0 = rest@;
        let p = rest.remove(0);
        assert(rest@ =~= r0.subrange(1, r0.len() as int));
        assert forall|i: int| 0 <= i < rest@.len() implies path_views(rest@)[i] == all.skip(n as int + 1)[i] by {
            assert(path_views(rest@)[i] == rest@[i]@);
            assert(rest@[i] == r0[i + 1]);
            assert(path_views(r0)[i + 1] == r0[i + 1]@);
        }
        assert(path_views(rest@) =~= all.skip(n as int + 1));
        let ghost before = kept@;
        if !string_eq(p.as_str(), path) {
            kept.push(p);
            assert(path_views(kept@) =~= path_views(before).push(all[n as int]));
        }
        n = n + 1;
    }
    assert(all.take(n as int) =~= all);
    *list = kept;
}

/// Remembers `path` as the most recently opened repository: any earlier
/// entry for it is dropped, it is put first, and the list is cut to `max`
/// entries.
pub fn add_recent_repository(list: &mut Vec<String>, max: usize, path: &str)
    ensures
        path_views(final(list)@) == after_adding(path_views(old(list)@), path@, max as nat),
{
    remove_recent_repository(list, path);
    list.insert(0, owned(path));
    let ghost l = path_views(list@);
    assert(l =~= seq![path@] + without_path(path_views(old(list)@), path@));
    if list.len() > max {
        list.truncate(max);
        assert(path_views(list@) =~= l.take(max as int));
    }
}

/// Law: after opening a repository, it comes first in the list (when the
/// list keeps anything), it is listed once, and the list never holds more
/// than `max` entries.
pub proof fn lemma_added_first_once(list: Seq<Seq<char>>, path: Seq<char>, max: nat)
    ensures
        after_adding(list, path, max).len() <= max,
        max > 0 ==> after_adding(list, path, max)[0] == path,
        forall|i: int| 0 < i < after_adding(list, path, max).len() ==> #[trigger] after_adding(list, path, max)[i] != path,
{
    let w = without_path(list, path);
    let l = seq![path] + w;
    assert forall|i: int| 0 <= i < w.len() implies #[trigger] w[i] != path by {
        list.lemma_filter_pred(other_than(path), i);
    }
    assert forall|i: int| 0 < i < l.len() implies #[trigger] l[i] != path by {
        assert(l[i] == w[i - 1]);
    }
}

/// Law: forgetting a repository leaves no entry for it and keeps every
/// other entry in order.
pub proof fn lemma_removed_absent(list: Seq<Seq<char>>, path: Seq<char>)
    ensures
        !without_path(list, path).contains(path),
        forall|q: Seq<char>| q != path ==> (#[trigger] without_path(list, path).contains(q) <==> list.contains(q)),
{
    let w = without_path(list, path);
    if w.contains(path) {
        let i = choose|i: int| 0 <= i < w.len() && w[i] == path;
        list.lemma_filter_pred(other_than(path), i);
    }
    assert forall|q: Seq<char>| q != path implies (#[trigger] without_path(list, path).contains(q) <==> list.contains(q)) by {
        if list.contains(q) {
            let i = choose|i: int| 0 <= i < list.len() && list[i] == q;
            list.lemma_filter_contains(other_than(path), i);
        }
        if without_path(list, path).contains(q) {
            list.lemma_filter_contains_rev(other_than(path), q);
        }
    }
}

} // verus!
