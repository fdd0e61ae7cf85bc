//! An opened repository: its summary, history queries and reference
//! tables.

use vstd::prelude::*;
use crate::errors::git2_error_text;
use crate::libgit::{
    blob_text, commit_facts, file_name_of, git_dir, head_commit_facts, head_facts, is_bare,
    list_branches, open_repository_ext, parse_oid, reference_peeled, reference_target,
    remote_names, tag_names, take_ids, walk_from_head, walk_from_reference, walk_range, workdir_of,
    oid_text, CommitFacts, SigFacts,
};
use crate::models::{GitCommit, GitSignature, RepositoryInfo};
use crate::references::{BranchFacts, HeadFacts, RefListing, RefManager, TagFacts};
use crate::text::{concat, contains_seq, lowercase, owned, str_contains, to_lowercase};

verus! {

/// The working directory of a repository, or its `.git` directory when it
/// is bare.
fn repository_dir(repo: &git2::Repository) -> String {
    match workdir_of(repo) {
        Some(w) => w,
        None => git_dir(repo),
    }
}

/// A directory path without one trailing `/`, unless the path is just `/`.
pub open spec fn without_trailing_slash(d: Seq<char>) -> Seq<char> {
    if d.len() > 1 && d.last() == '/' {
        d.drop_last()
    } else {
        d
    }
}

/// The text of an optional string, empty when absent.
pub open spec fn or_empty(o: Option<String>) -> Seq<char> {
    match o {
        Some(s) => s@,
        None => Seq::empty(),
    }
}

fn text_or_empty(o: Option<String>) -> (r: String)
    ensures
        r@ == or_empty(o),
{
    match o {
        Some(s) => s,
        None => String::new(),
    }
}

/// A signature as the history list shows it.
pub open spec fn signature_model(s: GitSignature, f: SigFacts) -> bool {
    s.name@ == or_empty(f.name) && s.email@ == or_empty(f.email) && s.when == f.when
}

fn signature_from(f: SigFacts) -> (s: GitSignature)
    ensures
        signature_model(s, f),
{
    let ghost g = f;
    GitSignature { name: text_or_empty(f.name), email: text_or_empty(f.email), when: f.when }
}

/// Text of a git2 error.
pub fn error_text(e: &git2::Error) -> String {
    git2_error_text(e)
}

impl GitCommit {
    /// Builds the history entry of a commit read from the repository;
    /// fails when the abbreviated id could not be computed.
    pub fn from_facts(f: CommitFacts) -> (r: Result<GitCommit, String>)
        ensures
            r is Ok <==> f.short_id is Ok,
            r matches Ok(c) ==> ({
                &&& c.id == f.id
                &&& c.short_id@ == (match f.short_id {
                    Ok(o) => or_empty(o),
                    Err(_) => Seq::empty(),
                })
                &&& signature_model(c.author, f.author)
                &&& signature_model(c.committer, f.committer)
                &&& c.message@ == or_empty(f.message)
                &&& c.summary@ == or_empty(f.summary)
                &&& c.parent_ids == f.parent_ids
                &&& c.tree_id == f.tree_id
            }),
    {
        let short_id = match f.short_id {
            Ok(o) => text_or_empty(o),
            Err(e) => {
                return Err(error_text(&e));
            },
        };
        Ok(GitCommit {
            id: f.id,
            short_id,
            author: signature_from(f.author),
            committer: signature_from(f.committer),
            message: text_or_empty(f.message),
            summary: text_or_empty(f.summary),
            parent_ids: f.parent_ids,
            tree_id: f.tree_id,
        })
    }
}

/// Whether a commit matches a lower-cased search query: in its message,
/// author name or e-mail (ignoring case), or in its id.
pub open spec fn commit_hit(c: GitCommit, q: Seq<char>) -> bool {
    ||| contains_seq(lowercase(c.message@), q)
    ||| contains_seq(lowercase(c.author.name@), q)
    ||| contains_seq(lowercase(c.author.email@), q)
    ||| contains_seq(c.id@, q)
}

/// A search finds a commit when its message, its author's name or e-mail
/// (all ignoring case) or its id contains the query; and only then.
pub proof fn law_search_fields(c: GitCommit, query: Seq<char>)
    ensures
        contains_seq(lowercase(c.message@), lowercase(query)) ==> commit_hit(c, lowercase(query)),
        contains_seq(lowercase(c.author.name@), lowercase(query)) ==> commit_hit(c, lowercase(query)),
        contains_seq(lowercase(c.author.email@), lowercase(query)) ==> commit_hit(c, lowercase(query)),
        contains_seq(c.id@, lowercase(query)) ==> commit_hit(c, lowercase(query)),
        commit_hit(c, lowercase(query)) ==> contains_seq(lowercase(c.message@), lowercase(query))
            || contains_seq(lowercase(c.author.name@), lowercase(query))
            || contains_seq(lowercase(c.author.email@), lowercase(query))
            || contains_seq(c.id@, lowercase(query)),
{
}

/// The result of a search over `commits` keeps exactly the commits the
/// query hits, in their order: each kept commit is a hit, and each hit is
/// kept.
pub proof fn law_search_keeps_hits(commits: Seq<GitCommit>, query: Seq<char>, found: Seq<GitCommit>)
    requires
        found == commits.filter(|c: GitCommit| commit_hit(c, lowercase(query))),
    ensures
        forall|i: int| 0 <= i < found.len() ==> commit_hit(#[trigger] found[i], lowercase(query)),
        forall|i: int| 0 <= i < commits.len() && commit_hit(#[trigger] commits[i], lowercase(query))
            ==> found.contains(commits[i]),
{
    let p = |c: GitCommit| commit_hit(c, lowercase(query));
    assert forall|i: int| 0 <= i < found.len() implies commit_hit(#[trigger] found[i], lowercase(query)) by {
        commits.lemma_filter_pred(p, i);
    }
    assert forall|i: int| 0 <= i < commits.len() && commit_hit(#[trigger] commits[i], lowercase(query))
        implies found.contains(commits[i]) by {
        commits.lemma_filter_contains_rev(p, commits[i]);
        assert(commits.contains(commits[i]));
    }
}

/// Keeps the commits that match `query`, in order.
pub fn search_in(commits: Vec<GitCommit>, query: &str) -> (r: Vec<GitCommit>)
    ensures
        r@ == commits@.filter(|c: GitCommit| commit_hit(c, lowercase(query@))),
{
    let q = to_lowercase(query);
    let ghost all = commits@;
    let mut rest = commits;
    let mut kept: Vec<GitCommit> = Vec::new();
    let n: usize = rest.len();
    let mut i: usize = 0;
    while rest.len() > 0
        invariant
            n == all.len(),
            i + rest@.len() == all.len(),
            rest@ == all.skip(i as int),
            q@ == lowercase(query@),
            kept@ == all.take(i as int).filter(|c: GitCommit| commit_hit(c, lowercase(query@))),
        decreases rest.len(),
    {
        proof {
            reveal(Seq::filter);
        }
        assert(all.take(i as int + 1).drop_last() =~= all.take(i as int));
        assert(all.take(i as int + 1).last() == rest@[0]);
        let c = rest.remove(0);
        let m = to_lowercase(c.message.as_str());
        let an = to_lowercase(c.author.name.as_str());
        let ae = to_lowercase(c.author.email.as_str());
        if str_contains(m.as_str(), q.as_str()) || str_contains(an.as_str(), q.as_str())
            || str_contains(ae.as_str(), q.as_str()) || str_contains(c.id.as_str(), q.as_str()) {
            kept.push(c);
        }
        i = i + 1;
        assert(rest@ =~= all.skip(i as int));
    }
    assert(all.take(all.len() as int) =~= all);
    kept
}

/// An opened repository.
pub struct GitRepository {
    repo: git2::Repository,
    info: RepositoryInfo,
    workdir: String,
}

impl RepositoryInfo {
    /// Summarises a repository: its directory and name, whether it is
    /// bare, the branch HEAD is on, and its local branches, tags and
    /// remotes (names that are not UTF-8 are left out). Fails only when a
    /// listed branch name cannot be read.
    pub fn from_repo(repo: &git2::Repository) -> (r: Result<RepositoryInfo, String>)
        ensures
            r matches Ok(i) ==> i.name@ == match crate::libgit::path_file_name(i.path@) {
                Some(n) => n,
                None => "Unknown"@,
            },
    {
        let path = repository_dir(repo);
        let name = repository_name(file_name_of(path.as_str()));
        let head_branch = match head_facts(repo) {
            Ok(h) => h.shorthand,
            Err(_) => None,
        };
        let mut branches: Vec<String> = Vec::new();
        match list_branches(repo, false) {
            Ok(items) => {
                let mut i: usize = 0;
                while i < items.len()
                    invariant
                        i <= items.len(),
                    decreases items.len() - i,
                {
                    match &items[i] {
                        Ok(b) => match &b.name {
                            Ok(Some(n)) => branches.push(owned(n.as_str())),
                            Ok(None) => {},
                            Err(e) => {
                                return Err(error_text(e));
                            },
                        },
                        Err(_) => {},
                    }
                    i = i + 1;
                }
            },
            Err(_) => {},
        }
        let tags = match tag_names(repo) {
            Ok(v) => present(v),
            Err(_) => Vec::new(),
        };
        let remotes = match remote_names(repo) {
            Ok(v) => present(v),
            Err(_) => Vec::new(),
        };
        Ok(RepositoryInfo { path, name, is_bare: is_bare(repo), head_branch, branches, tags, remotes })
    }
}

/// The names of listed branches, in order (names that are not UTF-8 are
/// left out); none when an entry or a name cannot be read.
pub open spec fn listed_names(items: Seq<Result<crate::libgit::BranchItem, git2::Error>>) -> Option<Seq<Seq<char>>>
    decreases items.len(),
{
    if items.len() == 0 {
        Some(Seq::empty())
    } else {
        match listed_names(items.drop_last()) {
            None => None,
            Some(rest) => match items.last() {
                Ok(b) => match b.name {
                    Ok(Some(n)) => Some(rest.push(n@)),
                    Ok(None) => Some(rest),
                    Err(_) => None,
                },
                Err(_) => None,
            },
        }
    }
}

/// The names of listed branches (see [`listed_names`]); fails with the
/// first error met.
pub fn branch_names(items: &Vec<Result<crate::libgit::BranchItem, git2::Error>>) -> (r: Result<Vec<String>, String>)
    ensures
        r is Ok <==> listed_names(items@) is Some,
        r matches Ok(v) ==> v@.map_values(|s: String| s@) == listed_names(items@)->0,
{
    let mut out: Vec<String> = Vec::new();
    let mut i: usize = 0;
    while i < items.len()
        invariant
            i <= items@.len(),
            listed_names(items@.take(i as int)) == Some(out@.map_values(|s: String| s@)),
        decreases items@.len() - i,
    {
        assert(items@.take(i as int + 1).drop_last() == items@.take(i as int));
        match &items[i] {
            Ok(b) => match &b.name {
                Ok(Some(n)) => {
                    let ghost before = out@;
                    out.push(owned(n.as_str()));
                    assert(out@.map_values(|s: String| s@) =~= before.map_values(|s: String| s@).push(n@));
                },
                Ok(None) => {},
                Err(e) => {
                    proof {
                        lemma_listed_names_stops(items@, i as int);
                    }
                    return Err(error_text(e));
                },
            },
            Err(e) => {
                proof {
                    lemma_listed_names_stops(items@, i as int);
                }
                return Err(error_text(e));
            },
        }
        i = i + 1;
    }
    assert(items@.take(items@.len() as int) == items@);
    Ok(out)
}

/// Once an entry cannot be read, no longer list of entries has names.
proof fn lemma_listed_names_stops(items: Seq<Result<crate::libgit::BranchItem, git2::Error>>, i: int)
    requires
        0 <= i < items.len(),
        listed_names(items.take(i + 1)) is None,
    ensures
        listed_names(items) is None,
    decreases items.len() - i,
{
    if i + 1 < items.len() {
        assert(items.take(i + 2).drop_last() == items.take(i + 1));
        lemma_listed_names_stops(items, i + 1);
    } else {
        assert(items.take(i + 1) == items);
    }
}

/// The name shown for a repository: the last component of its directory,
/// or `Unknown` when it has none.
pub fn repository_name(file_name: Option<String>) -> (r: String)
    ensures
        r@ == match file_name {
            Some(n) => n@,
            None => "Unknown"@,
        },
{
    match file_name {
        Some(n) => n,
        None => owned("Unknown"),
    }
}

/// The present values, in order.
pub open spec fn somes(v: Seq<Option<String>>) -> Seq<String>
    decreases v.len(),
{
    if v.len() == 0 {
        Seq::empty()
    } else {
        let rest = somes(v.drop_last());
        match v.last() {
            Some(s) => rest.push(s),
            None => rest,
        }
    }
}

/// Keeps the present values, in order.
pub fn present(v: Vec<Option<String>>) -> (r: Vec<String>)
    ensures
        r@ == somes(v@),
{
    let ghost all = v@;
    let mut rest = v;
    let mut kept: Vec<String> = Vec::new();
    let n: usize = rest.len();
    let mut i: usize = 0;
    while rest.len() > 0
        invariant
            n == all.len(),
            i + rest@.len() == all.len(),
            rest@ == all.skip(i as int),
            kept@ == somes(all.take(i as int)),
        decreases rest.len(),
    {
        assert(all.take(i as int + 1).drop_last() =~= all.take(i as int));
        assert(all.take(i as int + 1).last() == rest@[0]);
        let o = rest.remove(0);
        match o {
            Some(s) => kept.push(s),
            None => {},
        }
        i = i + 1;
        assert(rest@ =~= all.skip(i as int));
    }
    assert(all.take(all.len() as int) =~= all);
    kept
}

/// Reads the commits with the given ids, in order; fails on the first that
/// cannot be read.
fn commits_of(repo: &git2::Repository, ids: &Vec<String>) -> (r: Result<Vec<GitCommit>, String>)
    ensures
        r matches Ok(v) ==> v@.len() == ids@.len(),
        r matches Ok(v) ==> forall|i: int| 0 <= i < v@.len() ==> (#[trigger] v@[i]).id@ == oid_text(ids@[i]@),
{
    let mut out: Vec<GitCommit> = Vec::new();
    let mut i: usize = 0;
    while i < ids.len()
        invariant
            i <= ids.len(),
            out@.len() == i,
            forall|k: int| 0 <= k < i ==> (#[trigger] out@[k]).id@ == oid_text(ids@[k]@),
        decreases ids.len() - i,
    {
        let f = match commit_facts(repo, ids[i].as_str()) {
            Ok(f) => f,
            Err(e) => {
                return Err(error_text(&e));
            },
        };
        match GitCommit::from_facts(f) {
            Ok(c) => out.push(c),
            Err(e) => {
                return Err(e);
            },
        }
        i = i + 1;
    }
    Ok(out)
}

impl GitRepository {
    /// Opens the repository at `path` (without searching parent
    /// directories) and summarises it.
    pub fn open(path: &str) -> (r: Result<GitRepository, String>)
        ensures
            r matches Ok(g) ==> g.workdir_view() == g.summary().path@,
    {
        let repo = match open_repository_ext(path) {
            Ok(r) => r,
            Err(e) => {
                return Err(error_text(&e));
            },
        };
        let info = match RepositoryInfo::from_repo(&repo) {
            Ok(i) => i,
            Err(e) => {
                return Err(e);
            },
        };
        let workdir = owned(info.path.as_str());
        Ok(GitRepository { repo, info, workdir })
    }

    /// Opens the repository at `path`; the same as [`GitRepository::open`].
    pub fn discover(path: &str) -> (r: Result<GitRepository, String>)
        ensures
            r matches Ok(g) ==> g.workdir_view() == g.summary().path@,
    {
        Self::open(path)
    }

    /// The summary taken when the repository was opened.
    pub closed spec fn summary(&self) -> RepositoryInfo {
        self.info
    }

    /// Summary of the repository.
    pub fn info(&self) -> (r: &RepositoryInfo)
        ensures
            *r == self.summary(),
    {
        &self.info
    }

    /// Directory commands run in: the workdir, or the `.git` directory of
    /// a bare repository.
    pub fn workdir(&self) -> (r: &str)
        ensures
            r@ == self.workdir_view(),
    {
        self.workdir.as_str()
    }

    /// Directory commands run in.
    pub closed spec fn workdir_view(&self) -> Seq<char> {
        self.workdir@
    }

    /// The libgit2 repository.
    pub fn get_repository(&self) -> &git2::Repository {
        &self.repo
    }

    /// The libgit2 repository.
    pub fn repo(&self) -> &git2::Repository {
        &self.repo
    }

    /// The newest commits reachable from HEAD, at most `max_count` (1000 by
    /// default).
    pub fn get_commits(&self, max_count: Option<usize>) -> (r: Result<Vec<GitCommit>, String>)
        ensures
            r matches Ok(v) ==> v@.len() <= (match max_count {
                Some(m) => m,
                None => 1000,
            }),
    {
        let limit: usize = match max_count {
            Some(m) => m,
            None => 1000,
        };
        let mut walk = match walk_from_head(&self.repo) {
            Ok(w) => w,
            Err(e) => {
                return Err(error_text(&e));
            },
        };
        match take_ids(&mut walk, limit) {
            Ok(ids) => commits_of(&self.repo, &ids),
            Err(e) => Err(error_text(&e)),
        }
    }

    /// The commit with id `id`; fails when `id` is not one to forty
    /// hexadecimal digits or names no commit.
    pub fn get_commit(&self, id: &str) -> (r: Result<GitCommit, String>)
        ensures
            !(1 <= id@.len() <= 40 && crate::text::all_hex(id@)) ==> r is Err,
    {
        let oid = match parse_oid(id) {
            Ok(o) => o,
            Err(e) => {
                return Err(error_text(&e));
            },
        };
        match commit_facts(&self.repo, oid.as_str()) {
            Ok(f) => GitCommit::from_facts(f),
            Err(e) => Err(error_text(&e)),
        }
    }

    /// Commits reachable from `to` but not from `from`, newest first;
    /// fails when either is no object id.
    pub fn get_commits_in_range(&self, from: &str, to: &str) -> (r: Result<Vec<GitCommit>, String>)
        ensures
            !(1 <= from@.len() <= 40 && crate::text::all_hex(from@)) ==> r is Err,
            !(1 <= to@.len() <= 40 && crate::text::all_hex(to@)) ==> r is Err,
    {
        match parse_oid(to) {
            Ok(_) => {},
            Err(e) => {
                return Err(error_text(&e));
            },
        }
        match parse_oid(from) {
            Ok(_) => {},
            Err(e) => {
                return Err(error_text(&e));
            },
        }
        let mut walk = match walk_range(&self.repo, from, to) {
            Ok(w) => w,
            Err(e) => {
                return Err(error_text(&e));
            },
        };
        match take_ids(&mut walk, usize::MAX) {
            Ok(ids) => commits_of(&self.repo, &ids),
            Err(e) => Err(error_text(&e)),
        }
    }

    /// Text of the file `path` as of commit `commit_id`.
    pub fn get_file_content(&self, commit_id: &str, path: &str) -> (r: Result<String, String>)
        ensures
            !(1 <= commit_id@.len() <= 40 && crate::text::all_hex(commit_id@)) ==> r is Err,
    {
        let oid = match parse_oid(commit_id) {
            Ok(o) => o,
            Err(e) => {
                return Err(error_text(&e));
            },
        };
        match blob_text(&self.repo, oid.as_str(), path) {
            Ok(Some(t)) => Ok(t),
            Ok(None) => Err(owned("Object is not a blob")),
            Err(e) => Err(error_text(&e)),
        }
    }

    /// The commit HEAD points to.
    pub fn get_head_commit(&self) -> (r: Result<GitCommit, String>) {
        match head_commit_facts(&self.repo) {
            Ok(f) => GitCommit::from_facts(f),
            Err(e) => Err(error_text(&e)),
        }
    }

    /// Names of the local branches.
    pub fn get_branches(&self) -> (r: Result<Vec<String>, String>) {
        match list_branches(&self.repo, false) {
            Ok(items) => branch_names(&items),
            Err(e) => Err(error_text(&e)),
        }
    }

    /// Names of the tags.
    pub fn get_tags(&self) -> (r: Result<Vec<String>, String>) {
        match tag_names(&self.repo) {
            Ok(v) => Ok(present(v)),
            Err(e) => Err(error_text(&e)),
        }
    }

    /// Among the newest `max_count` (1000 by default) commits reachable
    /// from HEAD, those that match `query` (see [`search_in`]).
    pub fn search_commits(&self, query: &str, max_count: Option<usize>) -> (r: Result<
        Vec<GitCommit>,
        String,
    >)
        ensures
            r matches Ok(v) ==> v@.len() <= (match max_count {
                Some(m) => m,
                None => 1000,
            }),
            r matches Ok(v) ==> forall|i: int| 0 <= i < v@.len() ==> commit_hit(#[trigger] v@[i], lowercase(query@)),
    {
        match self.get_commits(max_count) {
            Ok(v) => {
                let ghost all = v@;
                let found = search_in(v, query);
                proof {
                    all.lemma_filter_len(|c: GitCommit| commit_hit(c, lowercase(query@)));
                    assert forall|i: int| 0 <= i < found@.len() implies commit_hit(#[trigger] found@[i], lowercase(query@)) by {
                        all.lemma_filter_pred(|c: GitCommit| commit_hit(c, lowercase(query@)), i);
                    }
                }
                Ok(found)
            },
            Err(e) => Err(e),
        }
    }

    /// The newest commits reachable from the reference `ref_name`, at most
    /// `limit` (1000 by default).
    pub fn get_commits_from_ref(&self, ref_name: &str, limit: Option<usize>) -> (r: Result<
        Vec<GitCommit>,
        String,
    >)
        ensures
            r matches Ok(v) ==> v@.len() <= (match limit {
                Some(m) => m,
                None => 1000,
            }),
    {
        let n: usize = match limit {
            Some(m) => m,
            None => 1000,
        };
        let mut walk = match walk_from_reference(&self.repo, ref_name) {
            Ok(w) => w,
            Err(e) => {
                return Err(error_text(&e));
            },
        };
        match take_ids(&mut walk, n) {
            Ok(ids) => commits_of(&self.repo, &ids),
            Err(e) => Err(error_text(&e)),
        }
    }

    /// Reads everything reference loading needs: local and remote
    /// branches, tags with their targets, and HEAD.
    pub fn ref_listing(&self) -> (r: Result<RefListing, String>) {
        let local = match branch_listing(&self.repo, false) {
            Ok(v) => v,
            Err(e) => {
                return Err(e);
            },
        };
        let remote = match branch_listing(&self.repo, true) {
            Ok(v) => v,
            Err(e) => {
                return Err(e);
            },
        };
        let names = match tag_names(&self.repo) {
            Ok(v) => v,
            Err(e) => {
                return Err(error_text(&e));
            },
        };
        let mut tags: Vec<TagFacts> = Vec::new();
        let mut i: usize = 0;
        while i < names.len()
            invariant
                i <= names.len(),
            decreases names.len() - i,
        {
            match &names[i] {
                Some(n) => {
                    let full = concat("refs/tags/", n.as_str());
                    let facts = match reference_target(&self.repo, full.as_str()) {
                        Ok(Some(t)) => TagFacts { name: Some(owned(n.as_str())), target: Some(t), peeled: None },
                        Ok(None) => TagFacts {
                            name: Some(owned(n.as_str())),
                            target: None,
                            peeled: match reference_peeled(&self.repo, full.as_str()) {
                                Ok(c) => Some(c),
                                Err(_) => None,
                            },
                        },
                        Err(_) => TagFacts { name: Some(owned(n.as_str())), target: None, peeled: None },
                    };
                    tags.push(facts);
                },
                None => {},
            }
            i = i + 1;
        }
        let head = match head_facts(&self.repo) {
            Ok(h) => Some(h),
            Err(_) => None,
        };
        Ok(RefListing { local, remote, tags, head })
    }

    /// The reference tables of this repository.
    pub fn get_ref_manager(&self) -> (r: Result<RefManager, String>) {
        let mut m = RefManager::new();
        match m.load_refs(self) {
            Ok(()) => Ok(m),
            Err(e) => Err(e),
        }
    }

    /// Commits named by the lines of `git rev-list` output, in order;
    /// lines that are no object id, or name no readable commit, are left
    /// out.
    pub fn commits_from_rev_list(&self, output: &str) -> (r: Vec<GitCommit>)
        ensures
            r@.len() <= crate::text::lines(output@).len(),
            r@.len() <= id_line_count(crate::text::lines(output@)),
    {
        let lines = crate::text::split_lines(output);
        let ghost ls = crate::text::lines(output@);
        let mut out: Vec<GitCommit> = Vec::new();
        let mut i: usize = 0;
        while i < lines.len()
            invariant
                i <= lines.len(),
                out@.len() <= i,
                lines@.len() == ls.len(),
                crate::text::views(lines@) == ls,
                ls == crate::text::lines(output@),
                out@.len() <= id_line_count(ls.take(i as int)),
            decreases lines.len() - i,
        {
            proof {
                assert(ls.take(i as int + 1).drop_last() =~= ls.take(i as int));
                assert(ls.take(i as int + 1).last() == ls[i as int]);
                assert(ls[i as int] == lines@[i as int]@);
            }
            let t = crate::text::trim_ws(lines[i].as_str());
            match parse_oid(t.as_str()) {
                Ok(oid) => match commit_facts(&self.repo, oid.as_str()) {
                    Ok(f) => match GitCommit::from_facts(f) {
                        Ok(c) => out.push(c),
                        Err(_) => {},
                    },
                    Err(_) => {},
                },
                Err(_) => {},
            }
            i = i + 1;
        }
        assert(ls.take(ls.len() as int) =~= ls);
        out
    }
}

/// How many of the lines `ls`, once trimmed, are one to forty hexadecimal
/// digits.
pub open spec fn id_line_count(ls: Seq<Seq<char>>) -> nat
    decreases ls.len(),
{
    if ls.len() == 0 {
        0
    } else {
        let t = crate::text::trim(ls.last());
        id_line_count(ls.drop_last()) + if 1 <= t.len() <= 40 && crate::text::all_hex(t) {
            1nat
        } else {
            0nat
        }
    }
}

/// Whether a status entry is a change: anything but an ignored file.
pub open spec fn is_change(s: crate::libgit::FileStatus) -> bool {
    !s.ignored
}

/// Whether some entry of a status list is a change.
pub open spec fn has_change_spec(entries: Seq<crate::libgit::FileStatus>) -> bool {
    exists|i: int| 0 <= i < entries.len() && is_change(#[trigger] entries[i])
}

/// Whether some entry of `entries` is a change (see [`is_change`]).
pub fn has_change(entries: &Vec<crate::libgit::FileStatus>) -> (r: bool)
    ensures
        r == has_change_spec(entries@),
{
    let mut i: usize = 0;
    while i < entries.len()
        invariant
            i <= entries.len(),
            forall|j: int| 0 <= j < i ==> !is_change(#[trigger] entries@[j]),
        decreases entries.len() - i,
    {
        if !entries[i].ignored {
            return true;
        }
        i = i + 1;
    }
    false
}

/// The branch HEAD is on: the short name of a HEAD that is a branch, none
/// for a detached HEAD.
pub fn branch_of_head(h: crate::references::HeadFacts) -> (r: Option<String>)
    ensures
        r == (if h.is_branch {
            h.shorthand
        } else {
            None
        }),
{
    if h.is_branch {
        h.shorthand
    } else {
        None
    }
}

/// Reads the branches of one kind; fails when the listing or a name cannot
/// be read.
fn branch_listing(repo: &git2::Repository, remote: bool) -> (r: Result<Vec<BranchFacts>, String>) {
    let items = match list_branches(repo, remote) {
        Ok(v) => v,
        Err(e) => {
            return Err(error_text(&e));
        },
    };
    let mut out: Vec<BranchFacts> = Vec::new();
    let mut i: usize = 0;
    while i < items.len()
        invariant
            i <= items.len(),
        decreases items.len() - i,
    {
        match &items[i] {
            Ok(b) => match &b.name {
                Ok(n) => {
                    let name = match n {
                        Some(s) => Some(owned(s.as_str())),
                        None => None,
                    };
                    let target = match &b.target {
                        Some(t) => Some(owned(t.as_str())),
                        None => None,
                    };
                    out.push(BranchFacts { name, target });
                },
                Err(e) => {
                    return Err(error_text(e));
                },
            },
            Err(e) => {
                return Err(error_text(e));
            },
        }
        i = i + 1;
    }
    Ok(out)
}

impl RefManager {
    /// Loads the references of `repo` (see [`RefManager::load_listing`]);
    /// fails when the branches or tags cannot be listed.
    pub fn load_refs(&mut self, repo: &GitRepository) -> (r: Result<(), String>)
        ensures
            r is Ok ==> exists|l: RefListing| final(self)@ == crate::references::loaded(l),
            r is Err ==> final(self)@.refs.len() == 0 && final(self)@.branches.len() == 0
                && final(self)@.tags.len() == 0 && final(self)@.remotes.len() == 0 && final(self)@.head is None,
    {
        match repo.ref_listing() {
            Ok(l) => {
                self.load_listing(&l);
                Ok(())
            },
            Err(e) => {
                *self = RefManager::new();
                Err(e)
            },
        }
    }
}

impl GitRepository {
    /// Creates the local branch `branch_name` at the commit `target_commit`;
    /// fails when the id is not one to forty hexadecimal digits, names no
    /// commit, or the branch cannot be created (it exists, say).
    pub fn create_branch(&self, branch_name: &str, target_commit: &str) -> (r: Result<(), String>)
        ensures
            !(1 <= target_commit@.len() <= 40 && crate::text::all_hex(target_commit@)) ==> r is Err,
    {
        let oid = match parse_oid(target_commit) {
            Ok(o) => o,
            Err(e) => {
                return Err(error_text(&e));
            },
        };
        match crate::libgit::create_branch(&self.repo, branch_name, oid.as_str()) {
            Ok(Ok(_)) => Ok(()),
            Ok(Err(e)) => Err(error_text(&e)),
            Err(e) => Err(error_text(&e)),
        }
    }

    /// Deletes the local branch `branch_name`; fails when there is no such
    /// branch or it cannot be deleted.
    pub fn delete_branch(&self, branch_name: &str) -> (r: Result<(), String>) {
        match crate::libgit::delete_branch(&self.repo, branch_name) {
            Ok(removal) => match removal.outcome {
                Ok(()) => Ok(()),
                Err(e) => Err(error_text(&e)),
            },
            Err(e) => Err(error_text(&e)),
        }
    }

    /// Creates the tag `tag_name` on the commit `target_commit`: annotated,
    /// by the repository's signature, when there is a message, lightweight
    /// otherwise. Fails when the id is not one to forty hexadecimal digits,
    /// names no commit, or the tag exists.
    pub fn create_tag(&self, tag_name: &str, target_commit: &str, message: Option<&str>) -> (r: Result<(), String>)
        ensures
            !(1 <= target_commit@.len() <= 40 && crate::text::all_hex(target_commit@)) ==> r is Err,
    {
        let oid = match parse_oid(target_commit) {
            Ok(o) => o,
            Err(e) => {
                return Err(error_text(&e));
            },
        };
        match commit_facts(&self.repo, oid.as_str()) {
            Ok(_) => {},
            Err(e) => {
                return Err(error_text(&e));
            },
        }
        match message {
            Some(m) => {
                let sig = match crate::libgit::repo_signature(&self.repo) {
                    Ok(s) => s,
                    Err(e) => {
                        return Err(error_text(&e));
                    },
                };
                match crate::libgit::create_tag_object(&self.repo, tag_name, oid.as_str(), &sig, m, false) {
                    Ok(()) => Ok(()),
                    Err(e) => Err(error_text(&e)),
                }
            },
            None => {
                let full = concat("refs/tags/", tag_name);
                match crate::libgit::create_reference(&self.repo, full.as_str(), oid.as_str(), false, "") {
                    Ok(()) => Ok(()),
                    Err(e) => Err(error_text(&e)),
                }
            },
        }
    }

    /// Deletes the tag `tag_name`; fails when there is no such tag.
    pub fn delete_tag(&self, tag_name: &str) -> (r: Result<(), String>) {
        let full = concat("refs/tags/", tag_name);
        match crate::libgit::delete_reference(&self.repo, full.as_str()) {
            Ok(Ok(())) => Ok(()),
            Ok(Err(e)) => Err(error_text(&e)),
            Err(e) => Err(error_text(&e)),
        }
    }

    /// Whether the working tree or the index differs from HEAD: whether the
    /// status list has an entry that is not an ignored file (see
    /// [`has_change`]).
    pub fn has_uncommitted_changes(&self) -> (r: Result<bool, String>) {
        match crate::libgit::status_entries(&self.repo) {
            Ok(v) => Ok(has_change(&v)),
            Err(e) => Err(error_text(&e)),
        }
    }

    /// The branch HEAD is on (its short name); none for a detached or
    /// unborn HEAD.
    pub fn get_current_branch_safe(&self) -> (r: Result<Option<String>, String>)
        ensures
            r is Ok,
    {
        match head_facts(&self.repo) {
            Ok(h) => Ok(branch_of_head(h)),
            Err(_) => Ok(None),
        }
    }

    /// The names of the local branches, then those of the remote-tracking
    /// branches.
    pub fn get_all_branches_safe(&self) -> (r: Result<Vec<String>, String>) {
        let mut local = match self.get_branches() {
            Ok(v) => v,
            Err(e) => {
                return Err(e);
            },
        };
        let mut remote = match list_branches(&self.repo, true) {
            Ok(items) => match branch_names(&items) {
                Ok(v) => v,
                Err(e) => {
                    return Err(e);
                },
            },
            Err(e) => {
                return Err(error_text(&e));
            },
        };
        local.append(&mut remote);
        Ok(local)
    }

    /// The names of the tags.
    pub fn get_all_tags_safe(&self) -> (r: Result<Vec<String>, String>) {
        self.get_tags()
    }

    /// Whether the repository has a working tree, and where it is (without
    /// a trailing `/`).
    pub fn get_repo_info_safe(&self) -> (r: Result<(bool, Option<String>), String>)
        ensures
            r is Ok,
            r matches Ok((has, w)) ==> has == w is Some,
            r matches Ok((_, w)) ==> (w matches Some(p) ==> exists|d: Seq<char>| p@ == without_trailing_slash(d)),
    {
        match workdir_of(&self.repo) {
            Some(w) => {
                let v = crate::text::chars_of(w.as_str());
                let mut n = v.len();
                if n > 1 && v[n - 1] == '/' {
                    n = n - 1;
                }
                assert(v@.take(n as int) == without_trailing_slash(w@));
                let mut kept: Vec<char> = Vec::new();
                let mut i: usize = 0;
                while i < n
                    invariant
                        i <= n,
                        n <= v@.len(),
                        kept@ == v@.take(i as int),
                    decreases n - i,
                {
                    kept.push(v[i]);
                    i = i + 1;
                }
                let p = crate::text::string_of(&kept);
                assert(p@ == without_trailing_slash(w@));
                Ok((true, Some(p)))
            },
            None => Ok((false, None)),
        }
    }
}

impl RefManager {
    /// Whether the commit `commit_sha` is on the local branch
    /// `branch_name`: false when there is no such branch, true when the
    /// branch points at it, otherwise whether walking the branch's history
    /// meets it. Fails when the branch's target or `commit_sha` is no
    /// object id, or the walk fails.
    pub fn is_commit_on_branch(&self, repo: &GitRepository, commit_sha: &str, branch_name: &str) -> (r: Result<bool, String>)
        ensures
            crate::references::lookup(self@.refs, "refs/heads/"@ + branch_name@) is None ==> r == Ok::<bool, String>(false),
            crate::references::lookup(self@.refs, "refs/heads/"@ + branch_name@) matches Some(b)
                ==> (b.target == commit_sha@ ==> r == Ok::<bool, String>(true)),
            crate::references::lookup(self@.refs, "refs/heads/"@ + branch_name@) matches Some(b)
                ==> (b.target != commit_sha@ && !(1 <= commit_sha@.len() <= 40 && crate::text::all_hex(commit_sha@)) ==> r is Err),
            r == Ok::<bool, String>(true) ==> crate::references::lookup(self@.refs, "refs/heads/"@ + branch_name@) is Some,
    {
        let full = concat("refs/heads/", branch_name);
        let target = match self.get_ref(full.as_str()) {
            Some(b) => owned(b.target.as_str()),
            None => {
                return Ok(false);
            },
        };
        if crate::text::string_eq(target.as_str(), commit_sha) {
            return Ok(true);
        }
        let branch_oid = match parse_oid(target.as_str()) {
            Ok(o) => o,
            Err(e) => {
                return Err(error_text(&e));
            },
        };
        let commit_oid = match parse_oid(commit_sha) {
            Ok(o) => o,
            Err(e) => {
                return Err(error_text(&e));
            },
        };
        let mut walk = match crate::libgit::walk_from(repo.repo(), branch_oid.as_str()) {
            Ok(w) => w,
            Err(e) => {
                return Err(error_text(&e));
            },
        };
        let mut seen: usize = 0;
        while seen < usize::MAX
            invariant
                crate::references::lookup(self@.refs, "refs/heads/"@ + branch_name@) matches Some(b) && b.target == target@,
                target@ != commit_sha@,
                1 <= commit_sha@.len() <= 40 && crate::text::all_hex(commit_sha@),
            decreases usize::MAX - seen,
        {
            match crate::libgit::walk_next(&mut walk) {
                None => {
                    return Ok(false);
                },
                Some(Err(e)) => {
                    return Err(error_text(&e));
                },
                Some(Ok(id)) => {
                    if crate::text::string_eq(id.as_str(), commit_oid.as_str()) {
                        return Ok(true);
                    }
                },
            }
            seen = seen + 1;
        }
        Ok(false)
    }
}

} // verus!
