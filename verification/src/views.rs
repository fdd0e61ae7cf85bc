//! Named commit views: filters, the `git rev-list` arguments they stand
//! for, and the set of views a window switches between.

use vstd::prelude::*;
use crate::models::GitCommit;
use crate::patterns::{regex_check, regex_compile_error, regex_is_match, regex_matches};
use crate::text::{
    concat, concat3, contains_seq, decimal, lowercase, owned, str_contains, string_eq,
    to_lowercase, usize_to_string,
};

verus! {

/// A commit filter.
#[derive(Debug, Clone)]
pub struct ViewFilter {
    pub name: String,
    pub description: String,
    pub author_filter: Option<String>,
    pub committer_filter: Option<String>,
    pub message_filter: Option<String>,
    pub file_filter: Option<String>,
    pub date_from: Option<String>,
    pub date_to: Option<String>,
    pub branch_filter: Option<String>,
    pub max_commits: Option<usize>,
    pub include_merges: bool,
    pub case_sensitive: bool,
    pub use_regex: bool,
}

/// Character view of an optional string.
pub open spec fn opt_chars(o: Option<String>) -> Option<Seq<char>> {
    match o {
        Some(s) => Some(s@),
        None => None,
    }
}

/// The filter every view starts from.
pub open spec fn is_default_filter(f: ViewFilter) -> bool {
    &&& f.name@ == "Default"@
    &&& f.description@ == "Show all commits"@
    &&& f.author_filter is None
    &&& f.committer_filter is None
    &&& f.message_filter is None
    &&& f.file_filter is None
    &&& f.date_from is None
    &&& f.date_to is None
    &&& f.branch_filter is None
    &&& f.max_commits == Some(1000usize)
    &&& f.include_merges
    &&& !f.case_sensitive
    &&& !f.use_regex
}

impl Default for ViewFilter {
    fn default() -> (r: ViewFilter)
        ensures
            is_default_filter(r),
    {
        ViewFilter {
            name: owned("Default"),
            description: owned("Show all commits"),
            author_filter: None,
            committer_filter: None,
            message_filter: None,
            file_filter: None,
            date_from: None,
            date_to: None,
            branch_filter: None,
            max_commits: Some(1000),
            include_merges: true,
            case_sensitive: false,
            use_regex: false,
        }
    }
}

/// Whether `text` matches `filter` as a substring, ignoring case unless the
/// filter is case sensitive.
pub open spec fn text_match(case_sensitive: bool, text: Seq<char>, filter: Seq<char>) -> bool {
    if case_sensitive {
        contains_seq(text, filter)
    } else {
        contains_seq(lowercase(text), lowercase(filter))
    }
}

/// The regular expression a filter is matched with: the filter itself, or,
/// when case does not matter, the filter with the case-insensitive flag.
pub open spec fn filter_regex(case_sensitive: bool, filter: Seq<char>) -> Seq<char> {
    if case_sensitive {
        filter
    } else {
        "(?i)"@ + filter
    }
}

/// Whether `text` matches `filter`: as a regular expression when the filter
/// asks for one and it compiles, otherwise as a substring (see
/// [`text_match`]).
pub open spec fn filter_text_match(case_sensitive: bool, use_regex: bool, text: Seq<char>, filter: Seq<char>) -> bool {
    if use_regex && regex_compile_error(filter_regex(case_sensitive, filter)) is None {
        regex_is_match(filter_regex(case_sensitive, filter), text)
    } else {
        text_match(case_sensitive, text, filter)
    }
}

/// Whether a commit passes every filter that can be checked on the commit
/// itself (author, committer, message, merges).
pub open spec fn commit_matches(f: ViewFilter, c: GitCommit) -> bool {
    &&& (match f.author_filter {
        Some(a) => filter_text_match(f.case_sensitive, f.use_regex, c.author.name@, a@) || filter_text_match(
            f.case_sensitive,
            f.use_regex,
            c.author.email@,
            a@,
        ),
        None => true,
    })
    &&& (match f.committer_filter {
        Some(a) => filter_text_match(f.case_sensitive, f.use_regex, c.committer.name@, a@) || filter_text_match(
            f.case_sensitive,
            f.use_regex,
            c.committer.email@,
            a@,
        ),
        None => true,
    })
    &&& (match f.message_filter {
        Some(m) => filter_text_match(f.case_sensitive, f.use_regex, c.message@, m@),
        None => true,
    })
    &&& (f.include_merges || c.parent_ids@.len() <= 1)
}

/// A filter that leaves merges out matches no commit with more than one
/// parent, whatever else the filter asks.
pub proof fn law_no_merges_excludes_merges(f: ViewFilter, c: GitCommit)
    requires
        !f.include_merges,
        c.parent_ids@.len() > 1,
    ensures
        !commit_matches(f, c),
{
}

/// A filter that asks for nothing but includes merges matches every
/// commit.
pub proof fn law_empty_filter_matches_all(f: ViewFilter, c: GitCommit)
    requires
        f.author_filter is None,
        f.committer_filter is None,
        f.message_filter is None,
        f.include_merges,
    ensures
        commit_matches(f, c),
{
}

/// A commit that fails the message filter is not matched, and one that
/// fails the author filter (on both name and e-mail) is not matched.
pub proof fn law_each_filter_is_required(f: ViewFilter, c: GitCommit)
    ensures
        (f.message_filter matches Some(m) && !filter_text_match(f.case_sensitive, f.use_regex, c.message@, m@))
            ==> !commit_matches(f, c),
        (f.author_filter matches Some(a) && !filter_text_match(f.case_sensitive, f.use_regex, c.author.name@, a@)
            && !filter_text_match(f.case_sensitive, f.use_regex, c.author.email@, a@)) ==> !commit_matches(f, c),
{
}

/// Without other filters, a commit with at most one parent is matched
/// whether or not the filter includes merges.
pub proof fn law_single_parent_kept(f: ViewFilter, c: GitCommit)
    requires
        f.author_filter is None,
        f.committer_filter is None,
        f.message_filter is None,
        c.parent_ids@.len() <= 1,
    ensures
        commit_matches(f, c),
{
}

/// Without a regular expression, a filter matches the texts that contain
/// it: exactly, when case matters, and after lower-casing both otherwise.
pub proof fn law_plain_filter_is_substring(text: Seq<char>, filter: Seq<char>)
    ensures
        filter_text_match(true, false, text, filter) == contains_seq(text, filter),
        filter_text_match(false, false, text, filter) == contains_seq(lowercase(text), lowercase(filter)),
{
}

/// With a regular expression that compiles, a filter matches the texts
/// the expression matches, case-insensitively unless case matters.
pub proof fn law_regex_filter(text: Seq<char>, filter: Seq<char>)
    ensures
        regex_compile_error(filter) is None ==> filter_text_match(true, true, text, filter) == regex_is_match(filter, text),
        regex_compile_error("(?i)"@ + filter) is None ==> filter_text_match(false, true, text, filter)
            == regex_is_match("(?i)"@ + filter, text),
{
}

/// `prefix` followed by the value, when there is one.
pub open spec fn opt_arg(prefix: Seq<char>, o: Option<String>) -> Seq<Seq<char>> {
    match o {
        Some(v) => seq![prefix + v@],
        None => Seq::empty(),
    }
}

/// The `git rev-list` arguments of a filter.
pub open spec fn git_args(f: ViewFilter) -> Seq<Seq<char>> {
    let start = match f.branch_filter {
        Some(b) => seq![b@],
        None => seq!["HEAD"@],
    };
    start + opt_arg("--author="@, f.author_filter) + opt_arg("--committer="@, f.committer_filter)
        + opt_arg("--grep="@, f.message_filter) + opt_arg("--since="@, f.date_from) + opt_arg(
        "--until="@,
        f.date_to,
    ) + (if f.include_merges {
        Seq::empty()
    } else {
        seq!["--no-merges"@]
    }) + (match f.max_commits {
        Some(m) => seq!["--max-count="@ + decimal(m as nat)],
        None => Seq::empty(),
    }) + (match f.file_filter {
        Some(p) => seq!["--"@, p@],
        None => Seq::empty(),
    })
}

/// Character views of a list of strings.
pub open spec fn string_views(v: Seq<String>) -> Seq<Seq<char>> {
    v.map_values(|s: String| s@)
}

fn push_opt_arg(args: &mut Vec<String>, prefix: &str, o: &Option<String>)
    ensures
        string_views(final(args)@) == string_views(old(args)@) + opt_arg(prefix@, *o),
{
    match o {
        Some(v) => {
            let a = concat(prefix, v.as_str());
            args.push(a);
        },
        None => {},
    }
    assert(string_views(args@) =~= string_views(old(args)@) + opt_arg(prefix@, *o));
}

fn copy_opt(o: &Option<String>) -> (c: Option<String>)
    ensures
        opt_chars(c) == opt_chars(*o),
{
    match o {
        Some(s) => Some(owned(s.as_str())),
        None => None,
    }
}

impl ViewFilter {
    /// A custom view named `name`, otherwise like the default filter.
    pub fn new(name: &str) -> (r: ViewFilter)
        ensures
            r.name@ == name@,
            r.description@ == "Custom view: "@ + name@,
            r.author_filter is None,
            r.committer_filter is None,
            r.message_filter is None,
            r.file_filter is None,
            r.date_from is None,
            r.date_to is None,
            r.branch_filter is None,
            r.max_commits == Some(1000usize),
            r.include_merges,
            !r.case_sensitive,
            !r.use_regex,
    {
        let d = ViewFilter::default();
        ViewFilter { name: owned(name), description: concat("Custom view: ", name), ..d }
    }

    /// Substring match honouring the filter's case sensitivity.
    pub fn simple_text_match(&self, text: &str, filter: &str) -> (r: bool)
        ensures
            r == text_match(self.case_sensitive, text@, filter@),
    {
        if self.case_sensitive {
            str_contains(text, filter)
        } else {
            let t = to_lowercase(text);
            let f = to_lowercase(filter);
            str_contains(t.as_str(), f.as_str())
        }
    }

    /// Text match used by the filter: a regular expression (with the
    /// case-insensitive flag unless the filter is case sensitive) when the
    /// filter uses one and it compiles, otherwise a substring match.
    pub fn text_matches(&self, text: &str, filter: &str) -> (r: bool)
        ensures
            r == filter_text_match(self.case_sensitive, self.use_regex, text@, filter@),
    {
        if self.use_regex {
            let pattern = if self.case_sensitive {
                owned(filter)
            } else {
                concat("(?i)", filter)
            };
            if regex_check(pattern.as_str()).is_none() {
                return regex_matches(pattern.as_str(), text);
            }
        }
        self.simple_text_match(text, filter)
    }

    /// Whether a commit passes the filter.
    pub fn matches_commit(&self, commit: &GitCommit) -> (r: bool)
        ensures
            r == commit_matches(*self, *commit),
    {
        match &self.author_filter {
            Some(a) => {
                if !self.text_matches(commit.author.name.as_str(), a.as_str())
                    && !self.text_matches(commit.author.email.as_str(), a.as_str()) {
                    return false;
                }
            },
            None => {},
        }
        match &self.committer_filter {
            Some(a) => {
                if !self.text_matches(commit.committer.name.as_str(), a.as_str())
                    && !self.text_matches(commit.committer.email.as_str(), a.as_str()) {
                    return false;
                }
            },
            None => {},
        }
        match &self.message_filter {
            Some(m) => {
                if !self.text_matches(commit.message.as_str(), m.as_str()) {
                    return false;
                }
            },
            None => {},
        }
        if !self.include_merges && commit.parent_ids.len() > 1 {
            return false;
        }
        true
    }

    /// The `git rev-list` arguments for this filter.
    pub fn to_git_args(&self) -> (r: Vec<String>)
        ensures
            string_views(r@) == git_args(*self),
    {
        let mut args: Vec<String> = Vec::new();
        match &self.branch_filter {
            Some(b) => args.push(owned(b.as_str())),
            None => args.push(owned("HEAD")),
        }
        push_opt_arg(&mut args, "--author=", &self.author_filter);
        push_opt_arg(&mut args, "--committer=", &self.committer_filter);
        push_opt_arg(&mut args, "--grep=", &self.message_filter);
        push_opt_arg(&mut args, "--since=", &self.date_from);
        push_opt_arg(&mut args, "--until=", &self.date_to);
        let ghost before = string_views(args@);
        if !self.include_merges {
            args.push(owned("--no-merges"));
        }
        assert(string_views(args@) =~= before + (if self.include_merges {
            Seq::empty()
        } else {
            seq!["--no-merges"@]
        }));
        let ghost before = string_views(args@);
        match self.max_commits {
            Some(m) => {
                let n = usize_to_string(m);
                args.push(concat("--max-count=", n.as_str()));
            },
            None => {},
        }
        assert(string_views(args@) =~= before + (match self.max_commits {
            Some(m) => seq!["--max-count="@ + decimal(m as nat)],
            None => Seq::empty(),
        }));
        let ghost before = string_views(args@);
        match &self.file_filter {
            Some(p) => {
                args.push(owned("--"));
                args.push(owned(p.as_str()));
            },
            None => {},
        }
        assert(string_views(args@) =~= before + (match self.file_filter {
            Some(p) => seq!["--"@, p@],
            None => Seq::empty(),
        }));
        args
    }
}

/// A filter together with the commits it last selected.
#[derive(Debug, Clone)]
pub struct GitView {
    pub filter: ViewFilter,
    pub commits: Vec<GitCommit>,
    pub is_loading: bool,
    /// When the commits were last loaded, in seconds since the epoch.
    pub last_updated: Option<u64>,
}

/// Whether a view loaded at `last` is older than `max_age` at time `now`
/// (a clock that went backwards counts as infinitely old).
pub open spec fn stale(last: Option<u64>, max_age: u64, now: u64) -> bool {
    match last {
        Some(t) => if now >= t {
            now - t > max_age
        } else {
            max_age < u64::MAX
        },
        None => true,
    }
}

impl GitView {
    /// An empty, never loaded view.
    pub fn new(filter: ViewFilter) -> (r: GitView)
        ensures
            r.filter == filter,
            r.commits@.len() == 0,
            !r.is_loading,
            r.last_updated is None,
    {
        GitView { filter, commits: Vec::new(), is_loading: false, last_updated: None }
    }

    /// Takes in what `git rev-list` with this view's arguments produced:
    /// on success keeps the commits that pass the filter, in order, and
    /// records `now`; on failure keeps the commits and hands the error back.
    pub fn apply_commits(&mut self, fetched: Result<Vec<GitCommit>, String>, now: u64) -> (r:
        Result<(), String>)
        ensures
            final(self).filter == old(self).filter,
            !final(self).is_loading,
            match fetched {
                Ok(cs) => r is Ok && final(self).commits@ == cs@.filter(
                    |c: GitCommit| commit_matches(old(self).filter, c),
                ) && final(self).last_updated == Some(now),
                Err(e) => r == Err::<(), String>(e) && final(self).commits@ == old(self).commits@
                    && final(self).last_updated == old(self).last_updated,
            },
    {
        self.is_loading = true;
        match fetched {
            Ok(cs) => {
                let ghost all = cs@;
                let mut rest = cs;
                let mut kept: Vec<GitCommit> = Vec::new();
                let mut i: usize = 0;
                let n: usize = rest.len();
                while rest.len() > 0
                    invariant
                        n == all.len(),
                        i + rest@.len() == all.len(),
                        rest@ == all.skip(i as int),
                        kept@ == all.take(i as int).filter(
                            |c: GitCommit| commit_matches(self.filter, c),
                        ),
                    decreases rest.len(),
                {
                    proof {
                        reveal(Seq::filter);
                    }
                    assert(all.take(i as int + 1).drop_last() =~= all.take(i as int));
                    assert(all.take(i as int + 1).last() == rest@[0]);
                    let c = rest.remove(0);
                    if self.filter.matches_commit(&c) {
                        kept.push(c);
                    }
                    i = i + 1;
                    assert(rest@ =~= all.skip(i as int));
                }
                assert(all.take(all.len() as int) =~= all);
                self.commits = kept;
                self.last_updated = Some(now);
                self.is_loading = false;
                Ok(())
            },
            Err(e) => {
                self.is_loading = false;
                Err(e)
            },
        }
    }

    /// Whether the view is older than `max_age` seconds at time `now`.
    pub fn is_stale(&self, max_age: u64, now: u64) -> (r: bool)
        ensures
            r == stale(self.last_updated, max_age, now),
    {
        match self.last_updated {
            Some(t) => if now >= t {
                now - t > max_age
            } else {
                max_age < u64::MAX
            },
            None => true,
        }
    }
}

/// A view with the given filter that has never been loaded.
pub open spec fn fresh_view(v: GitView, f: ViewFilter) -> bool {
    &&& v.filter == f
    &&& v.commits@.len() == 0
    &&& !v.is_loading
    &&& v.last_updated is None
}

/// A view after its commits were dropped for being stale.
pub open spec fn cleared_view(v: GitView, old_v: GitView) -> bool {
    &&& v.filter == old_v.filter
    &&& v.is_loading == old_v.is_loading
    &&& v.commits@.len() == 0
    &&& v.last_updated is None
}

/// What loading `fetched` into a view at time `now` leaves in it.
pub open spec fn applied_view(
    v: GitView,
    old_v: GitView,
    fetched: Result<Vec<GitCommit>, String>,
    now: u64,
) -> bool {
    &&& v.filter == old_v.filter
    &&& !v.is_loading
    &&& match fetched {
        Ok(cs) => v.commits@ == cs@.filter(|c: GitCommit| commit_matches(old_v.filter, c))
            && v.last_updated == Some(now),
        Err(_) => v.commits@ == old_v.commits@ && v.last_updated == old_v.last_updated,
    }
}

/// The commits and load time a view ends with after each item of
/// `items` named `k` was loaded into it in turn; a failed load changes
/// nothing.
pub open spec fn loaded_state(
    v: GitView,
    items: Seq<(String, Result<Vec<GitCommit>, String>)>,
    k: Seq<char>,
    now: u64,
) -> (Seq<GitCommit>, Option<u64>)
    decreases items.len(),
{
    if items.len() == 0 {
        (v.commits@, v.last_updated)
    } else {
        let before = loaded_state(v, items.drop_last(), k, now);
        let item = items.last();
        if item.0@ == k {
            match item.1 {
                Ok(cs) => (cs@.filter(|c: GitCommit| commit_matches(v.filter, c)), Some(now)),
                Err(_) => before,
            }
        } else {
            before
        }
    }
}

#[derive(Debug)]
struct NamedView {
    name: String,
    view: GitView,
}

/// Value of a view manager: the views by name, and the names of the
/// current and the default view.
pub struct ViewTable {
    pub views: Map<Seq<char>, GitView>,
    pub current: Seq<char>,
    pub default: Seq<char>,
}

/// The views a window switches between; the default view cannot be
/// removed.
#[derive(Debug)]
pub struct ViewManager {
    views: Vec<NamedView>,
    current_view: String,
    default_view: String,
}

spec fn key_at(s: Seq<NamedView>, k: Seq<char>, i: int) -> bool {
    0 <= i < s.len() && s[i].name@ == k
}

spec fn has_name(s: Seq<NamedView>, k: Seq<char>) -> bool {
    exists|i: int| #[trigger] key_at(s, k, i)
}

spec fn name_index(s: Seq<NamedView>, k: Seq<char>) -> int {
    choose|i: int| #[trigger] key_at(s, k, i)
}

spec fn names_unique(s: Seq<NamedView>) -> bool {
    forall|i: int, j: int|
        0 <= i < s.len() && 0 <= j < s.len() && i != j ==> #[trigger] s[i].name@
            != #[trigger] s[j].name@
}

spec fn table_map(s: Seq<NamedView>) -> Map<Seq<char>, GitView> {
    Map::new(|k: Seq<char>| has_name(s, k), |k: Seq<char>| s[name_index(s, k)].view)
}

proof fn lemma_index_unique(s: Seq<NamedView>, k: Seq<char>, i: int)
    requires
        names_unique(s),
        key_at(s, k, i),
    ensures
        has_name(s, k),
        name_index(s, k) == i,
        table_map(s).dom().contains(k),
        table_map(s)[k] == s[i].view,
{
    assert(key_at(s, k, i));
    let j = name_index(s, k);
    assert(key_at(s, k, j));
    if j != i {
        assert(s[i].name@ == s[j].name@);
    }
}

spec fn names_of(s: Seq<NamedView>) -> Seq<Seq<char>> {
    s.map_values(|e: NamedView| e.name@)
}

proof fn lemma_same_names(s: Seq<NamedView>, t: Seq<NamedView>)
    requires
        names_unique(s),
        names_of(s) == names_of(t),
    ensures
        names_unique(t),
        table_map(t).dom() == table_map(s).dom(),
        forall|k: Seq<char>| #[trigger]
            has_name(s, k) ==> has_name(t, k) && name_index(t, k) == name_index(s, k),
{
    assert(s.len() == names_of(s).len());
    assert(t.len() == names_of(t).len());
    assert forall|i: int| 0 <= i < s.len() implies #[trigger] t[i].name@ == s[i].name@ by {
        assert(names_of(s)[i] == names_of(t)[i]);
    }
    assert(names_unique(t)) by {
        assert forall|a: int, b: int|
            0 <= a < t.len() && 0 <= b < t.len() && a != b implies #[trigger] t[a].name@
            != #[trigger] t[b].name@ by {
            assert(t[a].name@ == s[a].name@);
            assert(t[b].name@ == s[b].name@);
        }
    }
    assert forall|k: Seq<char>| #[trigger]
        has_name(s, k) implies has_name(t, k) && name_index(t, k) == name_index(s, k) by {
        let q = name_index(s, k);
        assert(key_at(s, k, q));
        assert(t[q].name@ == s[q].name@);
        assert(key_at(t, k, q));
        lemma_index_unique(t, k, q);
    }
    assert(table_map(t).dom() =~= table_map(s).dom()) by {
        assert forall|k: Seq<char>| #[trigger] table_map(t).dom().contains(k) implies table_map(s).dom().contains(k) by {
            let q = choose|q: int| #[trigger] key_at(t, k, q);
            assert(t[q].name@ == s[q].name@);
            assert(key_at(s, k, q));
        }
    }
}

impl View for ViewManager {
    type V = ViewTable;

    closed spec fn view(&self) -> ViewTable {
        ViewTable {
            views: table_map(self.views@),
            current: self.current_view@,
            default: self.default_view@,
        }
    }
}

impl ViewManager {
    /// Names are unique, and the current and the default view exist.
    pub closed spec fn wf(&self) -> bool {
        &&& names_unique(self.views@)
        &&& has_name(self.views@, self.current_view@)
        &&& has_name(self.views@, self.default_view@)
    }

    /// One view, "Default", with the default filter, which is current.
    pub fn new() -> (r: ViewManager)
        ensures
            r.wf(),
            r@.views.dom() == set!["Default"@],
            is_default_filter(r@.views["Default"@].filter),
            fresh_view(r@.views["Default"@], r@.views["Default"@].filter),
            r@.current == "Default"@,
            r@.default == "Default"@,
    {
        let view = GitView::new(ViewFilter::default());
        let mut views: Vec<NamedView> = Vec::new();
        views.push(NamedView { name: owned("Default"), view });
        let r = ViewManager { views, current_view: owned("Default"), default_view: owned("Default") };
        proof {
            lemma_index_unique(r.views@, "Default"@, 0);
            assert(r@.views.dom() =~= set!["Default"@]) by {
                assert forall|k: Seq<char>| r@.views.dom().contains(k) implies k == "Default"@ by {
                    let i = choose|i: int| #[trigger] key_at(r.views@, k, i);
                }
            }
        }
        r
    }

    fn find(&self, name: &str) -> (r: Option<usize>)
        requires
            self.wf(),
        ensures
            match r {
                Some(i) => key_at(self.views@, name@, i as int),
                None => !has_name(self.views@, name@),
            },
    {
        let mut i: usize = 0;
        while i < self.views.len()
            invariant
                i <= self.views.len(),
                forall|j: int| 0 <= j < i ==> self.views@[j].name@ != name@,
            decreases self.views.len() - i,
        {
            if string_eq(self.views[i].name.as_str(), name) {
                return Some(i);
            }
            i = i + 1;
        }
        assert forall|j: int| !key_at(self.views@, name@, j) by {
            if 0 <= j < self.views@.len() {
                assert(self.views@[j].name@ != name@);
            }
        }
        None
    }

    /// Adds a never loaded view under `name`, replacing a view of that name.
    pub fn add_view(&mut self, name: String, filter: ViewFilter)
        requires
            old(self).wf(),
        ensures
            final(self).wf(),
            final(self)@.views.dom() == old(self)@.views.dom().insert(name@),
            fresh_view(final(self)@.views[name@], filter),
            forall|k: Seq<char>|
                k != name@ && #[trigger] old(self)@.views.dom().contains(k)
                    ==> final(self)@.views[k] == old(self)@.views[k],
            final(self)@.current == old(self)@.current,
            final(self)@.default == old(self)@.default,
    {
        let ghost s = self.views@;
        let ghost key = name@;
        let view = GitView::new(filter);
        match self.find(name.as_str()) {
            Some(i) => {
                self.views.set(i, NamedView { name, view });
                let ghost t = self.views@;
                proof {
                    assert(names_unique(t)) by {
                        assert forall|a: int, b: int|
                            0 <= a < t.len() && 0 <= b < t.len() && a != b implies #[trigger] t[a].name@
                            != #[trigger] t[b].name@ by {
                            assert(t[a].name@ == s[a].name@);
                            assert(t[b].name@ == s[b].name@);
                        }
                    }
                    let c = name_index(s, self.current_view@);
                    assert(key_at(s, self.current_view@, c));
                    assert(key_at(t, self.current_view@, c));
                    let d = name_index(s, self.default_view@);
                    assert(key_at(s, self.default_view@, d));
                    assert(key_at(t, self.default_view@, d));
                    lemma_index_unique(t, key, i as int);
                    assert forall|k: Seq<char>|
                        k != key && #[trigger] table_map(s).dom().contains(k) implies table_map(t)[k]
                        == table_map(s)[k] by {
                        let q = name_index(s, k);
                        assert(key_at(s, k, q));
                        lemma_index_unique(s, k, q);
                        assert(key_at(t, k, q));
                        lemma_index_unique(t, k, q);
                    }
                    assert(table_map(t).dom() =~= table_map(s).dom().insert(key)) by {
                        assert forall|k: Seq<char>| #[trigger] table_map(t).dom().contains(k) implies table_map(s).dom().insert(key).contains(k) by {
                            let q = choose|q: int| #[trigger] key_at(t, k, q);
                            if k != key {
                                assert(key_at(s, k, q));
                            }
                        }
                        assert forall|k: Seq<char>| #[trigger] table_map(s).dom().insert(key).contains(k) implies table_map(t).dom().contains(k) by {
                            if k != key {
                                let q = choose|q: int| #[trigger] key_at(s, k, q);
                                assert(key_at(t, k, q));
                            }
                        }
                    }
                }
            },
            None => {
                let ghost n = s.len() as int;
                self.views.push(NamedView { name, view });
                let ghost t = self.views@;
                proof {
                    assert(names_unique(t)) by {
                        assert forall|a: int, b: int|
                            0 <= a < t.len() && 0 <= b < t.len() && a != b implies #[trigger] t[a].name@
                            != #[trigger] t[b].name@ by {
                            if a == n {
                                assert(!key_at(s, key, b));
                            } else if b == n {
                                assert(!key_at(s, key, a));
                            }
                        }
                    }
                    lemma_index_unique(t, key, n);
                    let c = name_index(s, self.current_view@);
                    assert(key_at(s, self.current_view@, c));
                    assert(key_at(t, self.current_view@, c));
                    let d = name_index(s, self.default_view@);
                    assert(key_at(s, self.default_view@, d));
                    assert(key_at(t, self.default_view@, d));
                    assert forall|k: Seq<char>|
                        k != key && #[trigger] table_map(s).dom().contains(k) implies table_map(t)[k]
                        == table_map(s)[k] by {
                        let q = name_index(s, k);
                        assert(key_at(s, k, q));
                        lemma_index_unique(s, k, q);
                        assert(key_at(t, k, q));
                        lemma_index_unique(t, k, q);
                    }
                    assert(table_map(t).dom() =~= table_map(s).dom().insert(key)) by {
                        assert forall|k: Seq<char>| #[trigger] table_map(t).dom().contains(k) implies table_map(s).dom().insert(key).contains(k) by {
                            let q = choose|q: int| #[trigger] key_at(t, k, q);
                            if k != key {
                                assert(q != n);
                                assert(key_at(s, k, q));
                            }
                        }
                        assert forall|k: Seq<char>| #[trigger] table_map(s).dom().insert(key).contains(k) implies table_map(t).dom().contains(k) by {
                            if k != key {
                                let q = choose|q: int| #[trigger] key_at(s, k, q);
                                assert(key_at(t, k, q));
                            }
                        }
                    }
                }
            },
        }
    }

    /// Removes the view `name`; the default view cannot be removed, and
    /// removing the current view makes the default view current.
    pub fn remove_view(&mut self, name: &str) -> (r: Result<(), String>)
        requires
            old(self).wf(),
        ensures
            final(self).wf(),
            final(self)@.default == old(self)@.default,
            name@ == old(self)@.default ==> r is Err && r->Err_0@ == "Cannot remove default view"@
                && final(self)@ == old(self)@,
            name@ != old(self)@.default ==> r is Ok && final(self)@.views == old(self)@.views.remove(
                name@,
            ) && final(self)@.current == (if name@ == old(self)@.current {
                old(self)@.default
            } else {
                old(self)@.current
            }),
    {
        if string_eq(name, self.default_view.as_str()) {
            return Err(owned("Cannot remove default view"));
        }
        if string_eq(name, self.current_view.as_str()) {
            self.current_view = owned(self.default_view.as_str());
        }
        let ghost s = self.views@;
        match self.find(name) {
            Some(i) => {
                self.views.remove(i);
                let ghost t = self.views@;
                proof {
                    assert(t =~= s.remove(i as int));
                    assert forall|a: int| 0 <= a < t.len() implies #[trigger] t[a] == (if a < i {
                        s[a]
                    } else {
                        s[a + 1]
                    }) by {}
                    assert(names_unique(t)) by {
                        assert forall|a: int, b: int|
                            0 <= a < t.len() && 0 <= b < t.len() && a != b implies #[trigger] t[a].name@
                            != #[trigger] t[b].name@ by {
                            let a2 = if a < i { a } else { a + 1 };
                            let b2 = if b < i { b } else { b + 1 };
                            assert(s[a2].name@ != s[b2].name@);
                        }
                    }
                    assert forall|k: Seq<char>| k != name@ && #[trigger] has_name(s, k) implies has_name(t, k)
                        && table_map(t)[k] == table_map(s)[k] by {
                        let q = name_index(s, k);
                        assert(key_at(s, k, q));
                        lemma_index_unique(s, k, q);
                        assert(q != i);
                        let q2 = if q < i { q } else { q - 1 };
                        assert(t[q2] == s[q]);
                        assert(key_at(t, k, q2));
                        lemma_index_unique(t, k, q2);
                    }
                    assert(table_map(t).dom() =~= table_map(s).dom().remove(name@)) by {
                        assert forall|k: Seq<char>| #[trigger] table_map(t).dom().contains(k) implies table_map(s).dom().remove(name@).contains(k) by {
                            let q = choose|q: int| #[trigger] key_at(t, k, q);
                            let q2 = if q < i { q } else { q + 1 };
                            assert(key_at(s, k, q2));
                            assert(q2 != i);
                        }
                        assert forall|k: Seq<char>| #[trigger] table_map(s).dom().remove(name@).contains(k) implies table_map(t).dom().contains(k) by {
                            assert(has_name(s, k));
                        }
                    }
                    assert(table_map(t) =~= table_map(s).remove(name@));
                    assert(has_name(s, self.default_view@));
                    assert(has_name(s, self.current_view@));
                }
            },
            None => {
                proof {
                    assert(table_map(s) =~= table_map(s).remove(name@));
                }
            },
        }
        Ok(())
    }

    /// Makes `name` the current view, if it exists.
    pub fn switch_view(&mut self, name: &str) -> (r: Result<(), String>)
        requires
            old(self).wf(),
        ensures
            final(self).wf(),
            final(self)@.views == old(self)@.views,
            final(self)@.default == old(self)@.default,
            old(self)@.views.dom().contains(name@) ==> r is Ok && final(self)@.current == name@,
            !old(self)@.views.dom().contains(name@) ==> r is Err && r->Err_0@ == "View '"@ + name@
                + "' not found"@ && final(self)@.current == old(self)@.current,
    {
        match self.find(name) {
            Some(i) => {
                self.current_view = owned(name);
                Ok(())
            },
            None => Err(concat3("View '", name, "' not found")),
        }
    }

    /// The current view; it always exists.
    pub fn get_current_view(&self) -> (r: Option<&GitView>)
        requires
            self.wf(),
        ensures
            r is Some,
            self@.views.dom().contains(self@.current),
            *r->0 == self@.views[self@.current],
    {
        let i = self.find(self.current_view.as_str()).unwrap();
        proof {
            lemma_index_unique(self.views@, self.current_view@, i as int);
        }
        Some(&self.views[i].view)
    }

    /// The view `name`, if it exists.
    pub fn get_view(&self, name: &str) -> (r: Option<&GitView>)
        requires
            self.wf(),
        ensures
            r is Some <==> self@.views.dom().contains(name@),
            r is Some ==> *r->0 == self@.views[name@],
    {
        match self.find(name) {
            Some(i) => {
                proof {
                    lemma_index_unique(self.views@, name@, i as int);
                }
                Some(&self.views[i].view)
            },
            None => None,
        }
    }

    /// The names of all views, each once.
    pub fn get_view_names(&self) -> (r: Vec<String>)
        requires
            self.wf(),
        ensures
            string_views(r@).to_set() == self@.views.dom(),
            string_views(r@).no_duplicates(),
            r@.len() == self@.views.dom().len(),
    {
        let ghost s = self.views@;
        let mut names: Vec<String> = Vec::new();
        let mut i: usize = 0;
        while i < self.views.len()
            invariant
                i <= self.views.len(),
                s == self.views@,
                names@.len() == i,
                string_views(names@) == names_of(s).take(i as int),
            decreases self.views.len() - i,
        {
            let ghost prev = string_views(names@);
            names.push(owned(self.views[i].name.as_str()));
            assert(string_views(names@) =~= prev.push(s[i as int].name@));
            assert(names_of(s).take(i as int + 1) =~= names_of(s).take(i as int).push(s[i as int].name@));
            i = i + 1;
            assert(string_views(names@) =~= names_of(s).take(i as int));
        }
        proof {
            assert(names_of(s).take(s.len() as int) =~= names_of(s));
            let v = string_views(names@);
            assert(v.len() == s.len());
            assert forall|a: int, b: int| 0 <= a < v.len() && 0 <= b < v.len() && a != b implies v[a] != v[b] by {
                assert(v[a] == s[a].name@);
                assert(v[b] == s[b].name@);
            }
            assert(v.to_set() =~= table_map(s).dom()) by {
                assert forall|k: Seq<char>| #[trigger] v.to_set().contains(k) implies table_map(s).dom().contains(k) by {
                    let a = choose|a: int| 0 <= a < v.len() && v[a] == k;
                    assert(key_at(s, k, a));
                }
                assert forall|k: Seq<char>| #[trigger] table_map(s).dom().contains(k) implies v.to_set().contains(k) by {
                    let a = choose|a: int| #[trigger] key_at(s, k, a);
                    assert(v[a] == k);
                }
            }
            v.unique_seq_to_set();
        }
        names
    }

    /// Name of the current view.
    pub fn get_current_view_name(&self) -> (r: &str)
        ensures
            r@ == self@.current,
    {
        self.current_view.as_str()
    }

    fn update_at(&mut self, i: usize, fetched: Result<Vec<GitCommit>, String>, now: u64) -> (r: Result<(), String>)
        requires
            old(self).wf(),
            i < old(self).views@.len(),
        ensures
            final(self).wf(),
            final(self)@.current == old(self)@.current,
            final(self)@.default == old(self)@.default,
            final(self)@.views.dom() == old(self)@.views.dom(),
            applied_view(final(self)@.views[old(self).views@[i as int].name@], old(self)@.views[old(self).views@[i as int].name@], fetched, now),
            forall|k: Seq<char>| k != old(self).views@[i as int].name@ && #[trigger] old(self)@.views.dom().contains(k)
                ==> final(self)@.views[k] == old(self)@.views[k],
            match fetched {
                Ok(_) => r is Ok,
                Err(e) => r == Err::<(), String>(e),
            },
    {
        let ghost s = self.views@;
        let ghost key = s[i as int].name@;
        let mut e = self.views.remove(i);
        let r = e.view.apply_commits(fetched, now);
        self.views.insert(i, e);
        let ghost t = self.views@;
        proof {
            assert(t =~= s.update(i as int, t[i as int]));
            assert(names_of(t) =~= names_of(s));
            lemma_same_names(s, t);
            lemma_index_unique(s, key, i as int);
            lemma_index_unique(t, key, i as int);
            assert forall|k: Seq<char>| k != key && #[trigger] table_map(s).dom().contains(k)
                implies table_map(t)[k] == table_map(s)[k] by {
                let q = name_index(s, k);
                assert(has_name(s, k));
                assert(key_at(s, k, q));
                assert(q != i);
            }
        }
        r
    }

    /// Loads into the current view what `git rev-list` with its arguments
    /// produced (see [`GitView::apply_commits`]).
    pub fn update_current_view_with(&mut self, fetched: Result<Vec<GitCommit>, String>, now: u64) -> (r: Result<(), String>)
        requires
            old(self).wf(),
        ensures
            final(self).wf(),
            final(self)@.current == old(self)@.current,
            final(self)@.default == old(self)@.default,
            final(self)@.views.dom() == old(self)@.views.dom(),
            applied_view(final(self)@.views[old(self)@.current], old(self)@.views[old(self)@.current], fetched, now),
            forall|k: Seq<char>| k != old(self)@.current && #[trigger] old(self)@.views.dom().contains(k)
                ==> final(self)@.views[k] == old(self)@.views[k],
            match fetched {
                Ok(_) => r is Ok,
                Err(e) => r == Err::<(), String>(e),
            },
    {
        let i = self.find(self.current_view.as_str()).unwrap();
        self.update_at(i, fetched, now)
    }

    /// Loads into the view `name` what `git rev-list` with its arguments
    /// produced; fails if there is no such view.
    pub fn refresh_view_with(&mut self, name: &str, fetched: Result<Vec<GitCommit>, String>, now: u64) -> (r: Result<(), String>)
        requires
            old(self).wf(),
        ensures
            final(self).wf(),
            final(self)@.current == old(self)@.current,
            final(self)@.default == old(self)@.default,
            final(self)@.views.dom() == old(self)@.views.dom(),
            !old(self)@.views.dom().contains(name@) ==> r is Err && r->Err_0@ == "View '"@ + name@
                + "' not found"@ && final(self)@ == old(self)@,
            old(self)@.views.dom().contains(name@) ==> applied_view(final(self)@.views[name@], old(self)@.views[name@], fetched, now)
                && (match fetched {
                    Ok(_) => r is Ok,
                    Err(e) => r == Err::<(), String>(e),
                }),
            forall|k: Seq<char>| k != name@ && #[trigger] old(self)@.views.dom().contains(k)
                ==> final(self)@.views[k] == old(self)@.views[k],
    {
        match self.find(name) {
            Some(i) => self.update_at(i, fetched, now),
            None => Err(concat3("View '", name, "' not found")),
        }
    }

    /// Loads into each named view what `git rev-list` with its arguments
    /// produced, in turn; a name with no view is passed over.
    pub fn refresh_all_views_with(&mut self, fetched: Vec<(String, Result<Vec<GitCommit>, String>)>, now: u64)
        requires
            old(self).wf(),
        ensures
            final(self).wf(),
            final(self)@.current == old(self)@.current,
            final(self)@.default == old(self)@.default,
            final(self)@.views.dom() == old(self)@.views.dom(),
            forall|k: Seq<char>| #[trigger] old(self)@.views.dom().contains(k) && (forall|i: int|
                0 <= i < fetched@.len() ==> (#[trigger] fetched@[i]).0@ != k) ==> final(self)@.views[k] == old(self)@.views[k],
            forall|k: Seq<char>| #[trigger] old(self)@.views.dom().contains(k) ==> {
                &&& final(self)@.views[k].filter == old(self)@.views[k].filter
                &&& (final(self)@.views[k].commits@, final(self)@.views[k].last_updated) == loaded_state(
                    old(self)@.views[k],
                    fetched@,
                    k,
                    now,
                )
            },
    {
        let ghost names = fetched@;
        let mut rest = fetched;
        let mut done: usize = 0;
        let total: usize = rest.len();
        while rest.len() > 0
            invariant
                self.wf(),
                self@.current == old(self)@.current,
                self@.default == old(self)@.default,
                self@.views.dom() == old(self)@.views.dom(),
                total == names.len(),
                done + rest@.len() == names.len(),
                rest@ == names.skip(done as int),
                forall|k: Seq<char>| #[trigger] old(self)@.views.dom().contains(k) && (forall|i: int|
                    0 <= i < done ==> (#[trigger] names[i]).0@ != k) ==> self@.views[k] == old(self)@.views[k],
                forall|k: Seq<char>| #[trigger] old(self)@.views.dom().contains(k) ==> {
                    &&& self@.views[k].filter == old(self)@.views[k].filter
                    &&& (self@.views[k].commits@, self@.views[k].last_updated) == loaded_state(
                        old(self)@.views[k],
                        names.take(done as int),
                        k,
                        now,
                    )
                },
            decreases rest@.len(),
        {
            let ghost before = self@;
            let (name, result) = rest.remove(0);
            assert(names[done as int].0 == name);
            assert(names[done as int].1 == result);
            let _ = self.refresh_view_with(name.as_str(), result, now);
            proof {
                assert(names.take(done as int + 1).drop_last() =~= names.take(done as int));
                assert(names.take(done as int + 1).last() == names[done as int]);
            }
            done = done + 1;
            assert(rest@ =~= names.skip(done as int));
        }
        assert(names.take(names.len() as int) =~= names);
    }

    /// Drops the commits of every view older than `max_age` seconds at
    /// time `now`.
    pub fn cleanup_stale_views(&mut self, max_age: u64, now: u64)
        requires
            old(self).wf(),
        ensures
            final(self).wf(),
            final(self)@.current == old(self)@.current,
            final(self)@.default == old(self)@.default,
            final(self)@.views.dom() == old(self)@.views.dom(),
            forall|k: Seq<char>| #[trigger] old(self)@.views.dom().contains(k) ==> (if stale(
                old(self)@.views[k].last_updated,
                max_age,
                now,
            ) {
                cleared_view(final(self)@.views[k], old(self)@.views[k])
            } else {
                final(self)@.views[k] == old(self)@.views[k]
            }),
    {
        let ghost s = self.views@;
        let n = self.views.len();
        let mut i: usize = 0;
        while i < n
            invariant
                n == s.len(),
                i <= n,
                self.views@.len() == n,
                names_of(self.views@) == names_of(s),
                self.current_view@ == old(self).current_view@,
                self.default_view@ == old(self).default_view@,
                names_unique(s),
                has_name(s, self.current_view@),
                has_name(s, self.default_view@),
                forall|j: int| 0 <= j < i ==> (if stale(s[j].view.last_updated, max_age, now) {
                    cleared_view(#[trigger] self.views@[j].view, s[j].view)
                } else {
                    self.views@[j].view == s[j].view
                }),
                forall|j: int| i <= j < n ==> #[trigger] self.views@[j] == s[j],
            decreases n - i,
        {
            let ghost before = self.views@;
            if self.views[i].view.is_stale(max_age, now) {
                let mut e = self.views.remove(i);
                e.view.commits = Vec::new();
                e.view.last_updated = None;
                self.views.insert(i, e);
                assert(self.views@ =~= before.update(i as int, self.views@[i as int]));
                assert(names_of(self.views@) =~= names_of(before));
            }
            i = i + 1;
        }
        let ghost t = self.views@;
        proof {
            lemma_same_names(s, t);
            assert forall|k: Seq<char>| #[trigger] table_map(s).dom().contains(k) implies (if stale(
                table_map(s)[k].last_updated,
                max_age,
                now,
            ) {
                cleared_view(table_map(t)[k], table_map(s)[k])
            } else {
                table_map(t)[k] == table_map(s)[k]
            }) by {
                let q = name_index(s, k);
                assert(has_name(s, k));
                assert(key_at(s, k, q));
            }
        }
    }
}

/// A named, ready-made view.
#[derive(Debug, Clone)]
pub struct ViewPreset {
    pub name: String,
    pub filter: ViewFilter,
}

/// The default filter with the given name, description and commit limit.
pub open spec fn preset_base(f: ViewFilter, name: Seq<char>, description: Seq<char>, max: usize) -> bool {
    &&& f.name@ == name
    &&& f.description@ == description
    &&& f.author_filter is None
    &&& f.committer_filter is None
    &&& f.file_filter is None
    &&& f.date_to is None
    &&& f.branch_filter is None
    &&& f.max_commits == Some(max)
    &&& !f.case_sensitive
}

impl ViewPreset {
    fn preset(name: &str, description: &str, max: usize) -> (r: ViewPreset)
        ensures
            r.name@ == name@,
            preset_base(r.filter, name@, description@, max),
            r.filter.message_filter is None,
            r.filter.date_from is None,
            r.filter.include_merges,
            !r.filter.use_regex,
    {
        let d = ViewFilter::default();
        ViewPreset {
            name: owned(name),
            filter: ViewFilter {
                name: owned(name),
                description: owned(description),
                max_commits: Some(max),
                ..d
            },
        }
    }

    /// The built-in presets: recent commits, the user's commits, no merges,
    /// bug fixes and features.
    pub fn create_common_presets() -> (r: Vec<ViewPreset>)
        ensures
            r@.len() == 5,
            r@[0].name@ == "Recent"@,
            preset_base(r@[0].filter, "Recent"@, "Commits from the last 30 days"@, 500),
            opt_chars(r@[0].filter.date_from) == Some("30.days.ago"@),
            r@[0].filter.message_filter is None,
            r@[0].filter.include_merges && !r@[0].filter.use_regex,
            r@[1].name@ == "My Commits"@,
            preset_base(r@[1].filter, "My Commits"@, "Commits by current user"@, 1000),
            r@[1].filter.date_from is None && r@[1].filter.message_filter is None,
            r@[1].filter.include_merges && !r@[1].filter.use_regex,
            r@[2].name@ == "No Merges"@,
            preset_base(r@[2].filter, "No Merges"@, "All commits excluding merges"@, 1000),
            r@[2].filter.date_from is None && r@[2].filter.message_filter is None,
            !r@[2].filter.include_merges && !r@[2].filter.use_regex,
            r@[3].name@ == "Bug Fixes"@,
            preset_base(r@[3].filter, "Bug Fixes"@, "Commits containing 'fix' or 'bug'"@, 500),
            r@[3].filter.date_from is None,
            opt_chars(r@[3].filter.message_filter) == Some("fix|bug"@),
            r@[3].filter.include_merges && r@[3].filter.use_regex,
            r@[4].name@ == "Features"@,
            preset_base(r@[4].filter, "Features"@, "Commits containing 'feat' or 'feature'"@, 500),
            r@[4].filter.date_from is None,
            opt_chars(r@[4].filter.message_filter) == Some("feat|feature"@),
            r@[4].filter.include_merges && r@[4].filter.use_regex,
    {
        let mut recent = ViewPreset::preset("Recent", "Commits from the last 30 days", 500);
        recent.filter.date_from = Some(owned("30.days.ago"));
        let mine = ViewPreset::preset("My Commits", "Commits by current user", 1000);
        let mut no_merges = ViewPreset::preset("No Merges", "All commits excluding merges", 1000);
        no_merges.filter.include_merges = false;
        let mut fixes = ViewPreset::preset("Bug Fixes", "Commits containing 'fix' or 'bug'", 500);
        fixes.filter.message_filter = Some(owned("fix|bug"));
        fixes.filter.use_regex = true;
        let mut features = ViewPreset::preset(
            "Features",
            "Commits containing 'feat' or 'feature'",
            500,
        );
        features.filter.message_filter = Some(owned("feat|feature"));
        features.filter.use_regex = true;
        let mut r: Vec<ViewPreset> = Vec::new();
        r.push(recent);
        r.push(mine);
        r.push(no_merges);
        r.push(fixes);
        r.push(features);
        r
    }
}

impl crate::repository::GitRepository {
    /// A view manager for this repository (see [`ViewManager::new`]).
    pub fn create_view_manager(&self) -> (r: ViewManager)
        ensures
            r.wf(),
            r@.views.dom() == set!["Default"@],
            is_default_filter(r@.views["Default"@].filter),
            fresh_view(r@.views["Default"@], r@.views["Default"@].filter),
            r@.current == "Default"@,
            r@.default == "Default"@,
    {
        ViewManager::new()
    }
}

} // verus!
