//! Branches, tags and HEAD of a repository, kept in a table keyed by full
//! reference name.

use vstd::prelude::*;
use crate::text::{concat, owned, string_eq};

verus! {

/// Kind of a reference.
#[derive(Debug, Clone, Copy, PartialEq, Eq, Structural)]
pub enum RefType {
    LocalBranch,
    RemoteBranch,
    Tag,
    Head,
    Other,
}

/// A reference and the commit it points to.
#[derive(Debug, Clone)]
pub struct GitRef {
    pub name: String,
    pub full_name: String,
    /// Commit id the reference resolves to.
    pub target: String,
    pub ref_type: RefType,
    pub is_head: bool,
}

/// Mathematical value of a [`GitRef`].
pub struct RefModel {
    pub name: Seq<char>,
    pub full_name: Seq<char>,
    pub target: Seq<char>,
    pub ref_type: RefType,
    pub is_head: bool,
}

impl View for GitRef {
    type V = RefModel;

    open spec fn view(&self) -> RefModel {
        RefModel {
            name: self.name@,
            full_name: self.full_name@,
            target: self.target@,
            ref_type: self.ref_type,
            is_head: self.is_head,
        }
    }
}

/// Values of a sequence of references.
pub open spec fn ref_models(s: Seq<GitRef>) -> Seq<RefModel> {
    s.map_values(|r: GitRef| r@)
}

/// Values of a sequence of borrowed references.
pub open spec fn borrowed_models(s: Seq<&GitRef>) -> Seq<RefModel> {
    s.map_values(|r: &GitRef| r@)
}

/// No two entries share a full name.
pub open spec fn keys_unique(t: Seq<RefModel>) -> bool {
    forall|i: int, j: int|
        0 <= i < t.len() && 0 <= j < t.len() && i != j ==> #[trigger] t[i].full_name
            != #[trigger] t[j].full_name
}

/// Whether the table has an entry under `key`.
pub open spec fn has_key(t: Seq<RefModel>, key: Seq<char>) -> bool {
    exists|i: int| 0 <= i < t.len() && #[trigger] t[i].full_name == key
}

/// Whether `i` is the first position of an entry under `key`.
pub open spec fn first_key_at(t: Seq<RefModel>, key: Seq<char>, i: int) -> bool {
    &&& 0 <= i < t.len()
    &&& t[i].full_name == key
    &&& forall|j: int| 0 <= j < i ==> #[trigger] t[j].full_name != key
}

/// First position of an entry under `key` (meaningful when `has_key`).
pub open spec fn key_index(t: Seq<RefModel>, key: Seq<char>) -> int {
    choose|i: int| first_key_at(t, key, i)
}

/// An entry under `key` exists exactly when a first one does.
pub proof fn lemma_key_index(t: Seq<RefModel>, key: Seq<char>)
    ensures
        has_key(t, key) <==> first_key_at(t, key, key_index(t, key)),
        forall|i: int| #[trigger] first_key_at(t, key, i) ==> i == key_index(t, key),
    decreases t.len(),
{
    if has_key(t, key) {
        let w = choose|i: int| 0 <= i < t.len() && #[trigger] t[i].full_name == key;
        lemma_first_exists(t, key, w);
    }
    assert forall|i: int| #[trigger] first_key_at(t, key, i) implies i == key_index(t, key) by {
        let k = key_index(t, key);
        assert(first_key_at(t, key, k));
        if k < i {
            assert(t[k].full_name != key);
        } else if k > i {
            assert(t[i].full_name != key);
        }
    }
}

proof fn lemma_first_exists(t: Seq<RefModel>, key: Seq<char>, w: int)
    requires
        0 <= w < t.len(),
        t[w].full_name == key,
    ensures
        exists|i: int| first_key_at(t, key, i),
    decreases w,
{
    if forall|j: int| 0 <= j < w ==> #[trigger] t[j].full_name != key {
        assert(first_key_at(t, key, w));
    } else {
        let v = choose|j: int| 0 <= j < w && #[trigger] t[j].full_name == key;
        lemma_first_exists(t, key, v);
    }
}

/// The entry stored under `key`.
pub open spec fn lookup(t: Seq<RefModel>, key: Seq<char>) -> Option<RefModel> {
    if has_key(t, key) {
        Some(t[key_index(t, key)])
    } else {
        None
    }
}

/// Stores `r` under its full name, replacing an entry with the same name.
pub open spec fn upsert(t: Seq<RefModel>, r: RefModel) -> Seq<RefModel> {
    if has_key(t, r.full_name) {
        t.update(key_index(t, r.full_name), r)
    } else {
        t.push(r)
    }
}

/// Stores each reference of `s` in turn.
pub open spec fn upsert_all(t: Seq<RefModel>, s: Seq<RefModel>) -> Seq<RefModel>
    decreases s.len(),
{
    if s.len() == 0 {
        t
    } else {
        upsert(upsert_all(t, s.drop_last()), s.last())
    }
}

/// After storing `r`, a lookup of its name gives `r` and every other name
/// gives what it gave before; unique names stay unique.
pub proof fn lemma_upsert(t: Seq<RefModel>, r: RefModel)
    ensures
        lookup(upsert(t, r), r.full_name) == Some(r),
        forall|k: Seq<char>| k != r.full_name ==> lookup(upsert(t, r), k) == lookup(t, k),
        keys_unique(t) ==> keys_unique(upsert(t, r)),
{
    let key = r.full_name;
    let u = upsert(t, r);
    lemma_key_index(t, key);
    if has_key(t, key) {
        let p = key_index(t, key);
        assert(first_key_at(u, key, p));
        lemma_key_index(u, key);
        assert forall|k: Seq<char>| k != key implies lookup(u, k) == lookup(t, k) by {
            lemma_key_index(t, k);
            lemma_key_index(u, k);
            if has_key(t, k) {
                let q = key_index(t, k);
                assert(first_key_at(u, k, q));
                assert(q != p);
            } else if has_key(u, k) {
                let q = key_index(u, k);
                assert(t[q].full_name == k);
            }
        }
        if keys_unique(t) {
            assert forall|i: int, j: int|
                0 <= i < u.len() && 0 <= j < u.len() && i != j implies #[trigger] u[i].full_name
                != #[trigger] u[j].full_name by {
                assert(t[i].full_name == u[i].full_name);
                assert(t[j].full_name == u[j].full_name);
            }
        }
    } else {
        let n = t.len() as int;
        assert(first_key_at(u, key, n));
        lemma_key_index(u, key);
        assert forall|k: Seq<char>| k != key implies lookup(u, k) == lookup(t, k) by {
            lemma_key_index(t, k);
            lemma_key_index(u, k);
            if has_key(t, k) {
                let q = key_index(t, k);
                assert(first_key_at(u, k, q));
            } else if has_key(u, k) {
                let q = key_index(u, k);
                assert(q != n);
                assert(t[q].full_name == k);
            }
        }
        if keys_unique(t) {
            assert forall|i: int, j: int|
                0 <= i < u.len() && 0 <= j < u.len() && i != j implies #[trigger] u[i].full_name
                != #[trigger] u[j].full_name by {
                if i == n {
                    assert(t[j].full_name != key);
                } else if j == n {
                    assert(t[i].full_name != key);
                }
            }
        }
    }
}

/// Storing several references keeps names unique.
pub proof fn lemma_upsert_all_unique(t: Seq<RefModel>, s: Seq<RefModel>)
    requires
        keys_unique(t),
    ensures
        keys_unique(upsert_all(t, s)),
    decreases s.len(),
{
    if s.len() > 0 {
        lemma_upsert_all_unique(t, s.drop_last());
        lemma_upsert(upsert_all(t, s.drop_last()), s.last());
    }
}

// ------------------------------------------------------------------
// What loading reads from the repository
// ------------------------------------------------------------------

/// A branch as listed by the repository: its short name (when it is valid
/// UTF-8) and the commit it points to (when it is a direct reference).
#[derive(Debug, Clone)]
pub struct BranchFacts {
    pub name: Option<String>,
    pub target: Option<String>,
}

/// A tag as listed by the repository: its name (when valid UTF-8), the
/// object its reference points to, and the commit it peels to.
#[derive(Debug, Clone)]
pub struct TagFacts {
    pub name: Option<String>,
    pub target: Option<String>,
    pub peeled: Option<String>,
}

/// What HEAD resolves to.
#[derive(Debug, Clone)]
pub struct HeadFacts {
    pub target: Option<String>,
    pub peeled: Option<String>,
    pub is_branch: bool,
    pub shorthand: Option<String>,
}

/// Everything reference loading reads from a repository.
#[derive(Debug, Clone)]
pub struct RefListing {
    pub local: Vec<BranchFacts>,
    pub remote: Vec<BranchFacts>,
    pub tags: Vec<TagFacts>,
    pub head: Option<HeadFacts>,
}

pub open spec fn opt_view(o: Option<String>) -> Option<Seq<char>> {
    match o {
        Some(s) => Some(s@),
        None => None,
    }
}

/// The reference a listed branch becomes, if any.
pub open spec fn branch_model(f: BranchFacts, remote: bool) -> Option<RefModel> {
    match (f.name, f.target) {
        (Some(n), Some(t)) => Some(
            RefModel {
                name: n@,
                full_name: (if remote {
                    "refs/remotes/"@
                } else {
                    "refs/heads/"@
                }) + n@,
                target: t@,
                ref_type: if remote {
                    RefType::RemoteBranch
                } else {
                    RefType::LocalBranch
                },
                is_head: false,
            },
        ),
        _ => None,
    }
}

/// The reference a listed tag becomes, if any.
pub open spec fn tag_model(f: TagFacts) -> Option<RefModel> {
    match f.name {
        Some(n) => {
            let target = match f.target {
                Some(t) => Some(t@),
                None => opt_view(f.peeled),
            };
            match target {
                Some(t) => Some(
                    RefModel {
                        name: n@,
                        full_name: "refs/tags/"@ + n@,
                        target: t,
                        ref_type: RefType::Tag,
                        is_head: false,
                    },
                ),
                None => None,
            }
        },
        None => None,
    }
}

/// The HEAD entry, if HEAD resolves to a commit.
pub open spec fn head_model(h: HeadFacts) -> Option<RefModel> {
    let target = match h.target {
        Some(t) => Some(t@),
        None => opt_view(h.peeled),
    };
    match target {
        Some(t) => {
            let branch = h.is_branch && h.shorthand is Some;
            Some(
                RefModel {
                    name: if branch {
                        h.shorthand->0@
                    } else {
                        "HEAD"@
                    },
                    full_name: "HEAD"@,
                    target: t,
                    ref_type: if branch {
                        RefType::LocalBranch
                    } else {
                        RefType::Head
                    },
                    is_head: true,
                },
            )
        },
        None => None,
    }
}

/// Listed branches that become references, in listing order.
pub open spec fn branch_models(s: Seq<BranchFacts>, remote: bool) -> Seq<RefModel>
    decreases s.len(),
{
    if s.len() == 0 {
        Seq::empty()
    } else {
        let rest = branch_models(s.drop_last(), remote);
        match branch_model(s.last(), remote) {
            Some(r) => rest.push(r),
            None => rest,
        }
    }
}

/// Listed tags that become references, in listing order.
pub open spec fn tag_models(s: Seq<TagFacts>) -> Seq<RefModel>
    decreases s.len(),
{
    if s.len() == 0 {
        Seq::empty()
    } else {
        let rest = tag_models(s.drop_last());
        match tag_model(s.last()) {
            Some(r) => rest.push(r),
            None => rest,
        }
    }
}

/// Marks the first reference named `name` as HEAD.
pub open spec fn mark_first_named(s: Seq<RefModel>, name: Seq<char>) -> Seq<RefModel> {
    if exists|i: int| first_named_at(s, name, i) {
        let i = choose|i: int| first_named_at(s, name, i);
        s.update(i, RefModel { is_head: true, ..s[i] })
    } else {
        s
    }
}

/// Whether `i` is the first position of a reference named `name`.
pub open spec fn first_named_at(s: Seq<RefModel>, name: Seq<char>, i: int) -> bool {
    &&& 0 <= i < s.len()
    &&& s[i].name == name
    &&& forall|j: int| 0 <= j < i ==> #[trigger] s[j].name != name
}

/// Value of a reference manager.
pub struct RefTables {
    /// Every reference, keyed by full name.
    pub refs: Seq<RefModel>,
    pub branches: Seq<RefModel>,
    pub tags: Seq<RefModel>,
    pub remotes: Seq<RefModel>,
    pub head: Option<RefModel>,
}

/// The tables that loading `l` produces.
pub open spec fn loaded(l: RefListing) -> RefTables {
    let local = branch_models(l.local@, false);
    let remote = branch_models(l.remote@, true);
    let tags = tag_models(l.tags@);
    let refs0 = upsert_all(upsert_all(upsert_all(Seq::empty(), local), remote), tags);
    let head = match l.head {
        Some(h) => head_model(h),
        None => None,
    };
    match head {
        Some(h) => RefTables {
            refs: upsert(refs0, h),
            branches: mark_first_named(local, h.name),
            tags,
            remotes: remote,
            head: Some(h),
        },
        None => RefTables { refs: refs0, branches: local, tags, remotes: remote, head: None },
    }
}

/// Whether every reference of `s` has the full name `prefix` + its name.
pub open spec fn named_under(s: Seq<RefModel>, prefix: Seq<char>) -> bool {
    forall|i: int| 0 <= i < s.len() ==> (#[trigger] s[i]).full_name == prefix + s[i].name
}

proof fn lemma_branch_models_named(s: Seq<BranchFacts>, remote: bool)
    ensures
        named_under(branch_models(s, remote), if remote { "refs/remotes/"@ } else { "refs/heads/"@ }),
    decreases s.len(),
{
    if s.len() > 0 {
        lemma_branch_models_named(s.drop_last(), remote);
    }
}

proof fn lemma_tag_models_named(s: Seq<TagFacts>)
    ensures
        named_under(tag_models(s), "refs/tags/"@),
    decreases s.len(),
{
    if s.len() > 0 {
        lemma_tag_models_named(s.drop_last());
    }
}

/// After loading, every local branch is known by `refs/heads/` and its
/// name, every remote-tracking branch by `refs/remotes/` and its name, and
/// every tag by `refs/tags/` and its name.
pub proof fn law_loaded_full_names(l: RefListing)
    ensures
        named_under(loaded(l).branches, "refs/heads/"@),
        named_under(loaded(l).remotes, "refs/remotes/"@),
        named_under(loaded(l).tags, "refs/tags/"@),
{
    lemma_branch_models_named(l.local@, false);
    lemma_branch_models_named(l.remote@, true);
    lemma_tag_models_named(l.tags@);
    let local = branch_models(l.local@, false);
    match (match l.head {
        Some(h) => head_model(h),
        None => None,
    }) {
        Some(h) => {
            let m = mark_first_named(local, h.name);
            assert forall|i: int| 0 <= i < m.len() implies (#[trigger] m[i]).full_name == "refs/heads/"@ + m[i].name by {
                if exists|k: int| first_named_at(local, h.name, k) {
                    let k = choose|k: int| first_named_at(local, h.name, k);
                    assert(local[i].full_name == "refs/heads/"@ + local[i].name);
                    if i == k {
                        assert(m[i].full_name == local[i].full_name && m[i].name == local[i].name);
                    } else {
                        assert(m[i] == local[i]);
                    }
                } else {
                    assert(m[i] == local[i]);
                }
            }
        },
        None => {},
    }
}

/// Storing references none of which is under `k` leaves the lookup of `k`.
proof fn lemma_upsert_all_other(t: Seq<RefModel>, s: Seq<RefModel>, k: Seq<char>)
    requires
        forall|i: int| 0 <= i < s.len() ==> (#[trigger] s[i]).full_name != k,
    ensures
        lookup(upsert_all(t, s), k) == lookup(t, k),
    decreases s.len(),
{
    if s.len() > 0 {
        let p = s.drop_last();
        assert forall|i: int| 0 <= i < p.len() implies (#[trigger] p[i]).full_name != k by {
            assert(p[i] == s[i]);
        }
        lemma_upsert_all_other(t, p, k);
        lemma_upsert(upsert_all(t, p), s.last());
    }
}

/// After storing references with unique names, each is found under its
/// name.
proof fn lemma_upsert_all_found(t: Seq<RefModel>, s: Seq<RefModel>, i: int)
    requires
        keys_unique(s),
        0 <= i < s.len(),
    ensures
        lookup(upsert_all(t, s), s[i].full_name) == Some(s[i]),
    decreases s.len(),
{
    let p = s.drop_last();
    lemma_upsert(upsert_all(t, p), s.last());
    if i < s.len() - 1 {
        assert(keys_unique(p)) by {
            assert forall|a: int, b: int| 0 <= a < p.len() && 0 <= b < p.len() && a != b implies #[trigger] p[a].full_name
                != #[trigger] p[b].full_name by {
                assert(p[a] == s[a] && p[b] == s[b]);
            }
        }
        lemma_upsert_all_found(t, p, i);
        assert(p[i] == s[i]);
        assert(s[i].full_name != s[s.len() - 1].full_name);
    }
}

/// Two names under prefixes that differ at their sixth character differ.
proof fn lemma_prefixed_differ(p1: Seq<char>, a: Seq<char>, p2: Seq<char>, b: Seq<char>)
    requires
        p1.len() > 5,
        p2.len() > 5,
        p1[5] != p2[5],
    ensures
        p1 + a != p2 + b,
{
    assert((p1 + a)[5] == p1[5]);
    assert((p2 + b)[5] == p2[5]);
}

/// A name under a `refs/` prefix is not `HEAD`.
proof fn lemma_not_head_key(p: Seq<char>, a: Seq<char>)
    requires
        p == "refs/heads/"@ || p == "refs/remotes/"@ || p == "refs/tags/"@,
    ensures
        p + a != "HEAD"@,
{
    reveal_strlit("refs/heads/");
    reveal_strlit("refs/remotes/");
    reveal_strlit("refs/tags/");
    reveal_strlit("HEAD");
    assert((p + a)[0] == 'r');
}

/// Every reference of `s` is found, with its target and name, in the table
/// `t`.
pub open spec fn found_in(s: Seq<RefModel>, t: Seq<RefModel>) -> bool {
    forall|i: int| 0 <= i < s.len() ==> (lookup(t, (#[trigger] s[i]).full_name) matches Some(x) && x.target
        == s[i].target && x.name == s[i].name)
}

/// At most one reference of `s` is marked as HEAD.
pub open spec fn at_most_one_head(s: Seq<RefModel>) -> bool {
    forall|i: int, j: int| 0 <= i < s.len() && 0 <= j < s.len() && (#[trigger] s[i]).is_head && (#[trigger] s[j]).is_head ==> i == j
}

proof fn lemma_branch_models_not_head(s: Seq<BranchFacts>, remote: bool)
    ensures
        forall|i: int| 0 <= i < branch_models(s, remote).len() ==> !(#[trigger] branch_models(s, remote)[i]).is_head,
    decreases s.len(),
{
    if s.len() > 0 {
        lemma_branch_models_not_head(s.drop_last(), remote);
    }
}

/// After loading a listing that names each branch and tag once, every
/// local branch, remote-tracking branch and tag is found under its full
/// name in the table of all references, with its target and name; at most
/// one local branch is marked as HEAD, and it is named as HEAD is.
pub proof fn law_loaded_lookup(l: RefListing)
    requires
        keys_unique(branch_models(l.local@, false)),
        keys_unique(branch_models(l.remote@, true)),
        keys_unique(tag_models(l.tags@)),
    ensures
        found_in(loaded(l).branches, loaded(l).refs),
        found_in(loaded(l).remotes, loaded(l).refs),
        found_in(loaded(l).tags, loaded(l).refs),
        at_most_one_head(loaded(l).branches),
        forall|i: int| 0 <= i < loaded(l).branches.len() && (#[trigger] loaded(l).branches[i]).is_head
            ==> (loaded(l).head matches Some(h) && loaded(l).branches[i].name == h.name),
{
    reveal_strlit("refs/heads/");
    reveal_strlit("refs/remotes/");
    reveal_strlit("refs/tags/");
    lemma_branch_models_named(l.local@, false);
    lemma_branch_models_named(l.remote@, true);
    lemma_tag_models_named(l.tags@);
    lemma_branch_models_not_head(l.local@, false);
    let local = branch_models(l.local@, false);
    let remote = branch_models(l.remote@, true);
    let tags = tag_models(l.tags@);
    let r1 = upsert_all(Seq::empty(), local);
    let r2 = upsert_all(r1, remote);
    let r3 = upsert_all(r2, tags);
    let head = match l.head {
        Some(h) => head_model(h),
        None => None,
    };
    // Every table's entries are found in r3.
    assert forall|i: int| 0 <= i < local.len() implies (lookup(r3, (#[trigger] local[i]).full_name) == Some(local[i])) by {
        lemma_upsert_all_found(Seq::empty(), local, i);
        assert forall|j: int| 0 <= j < remote.len() implies (#[trigger] remote[j]).full_name != local[i].full_name by {
            lemma_prefixed_differ("refs/remotes/"@, remote[j].name, "refs/heads/"@, local[i].name);
        }
        lemma_upsert_all_other(r1, remote, local[i].full_name);
        assert forall|j: int| 0 <= j < tags.len() implies (#[trigger] tags[j]).full_name != local[i].full_name by {
            lemma_prefixed_differ("refs/tags/"@, tags[j].name, "refs/heads/"@, local[i].name);
        }
        lemma_upsert_all_other(r2, tags, local[i].full_name);
    }
    assert forall|i: int| 0 <= i < remote.len() implies (lookup(r3, (#[trigger] remote[i]).full_name) == Some(remote[i])) by {
        lemma_upsert_all_found(r1, remote, i);
        assert forall|j: int| 0 <= j < tags.len() implies (#[trigger] tags[j]).full_name != remote[i].full_name by {
            lemma_prefixed_differ("refs/tags/"@, tags[j].name, "refs/remotes/"@, remote[i].name);
        }
        lemma_upsert_all_other(r2, tags, remote[i].full_name);
    }
    assert forall|i: int| 0 <= i < tags.len() implies (lookup(r3, (#[trigger] tags[i]).full_name) == Some(tags[i])) by {
        lemma_upsert_all_found(r2, tags, i);
    }
    match head {
        Some(h) => {
            lemma_upsert(r3, h);
            let m = mark_first_named(local, h.name);
            assert forall|i: int| 0 <= i < local.len() implies (lookup(loaded(l).refs, (#[trigger] local[i]).full_name) == Some(local[i])) by {
                lemma_not_head_key("refs/heads/"@, local[i].name);
                assert(lookup(r3, local[i].full_name) == Some(local[i]));
            }
            assert forall|i: int| 0 <= i < remote.len() implies (lookup(loaded(l).refs, (#[trigger] remote[i]).full_name) == Some(remote[i])) by {
                lemma_not_head_key("refs/remotes/"@, remote[i].name);
                assert(lookup(r3, remote[i].full_name) == Some(remote[i]));
            }
            assert forall|i: int| 0 <= i < tags.len() implies (lookup(loaded(l).refs, (#[trigger] tags[i]).full_name) == Some(tags[i])) by {
                lemma_not_head_key("refs/tags/"@, tags[i].name);
                assert(lookup(r3, tags[i].full_name) == Some(tags[i]));
            }
            if exists|k: int| first_named_at(local, h.name, k) {
                let k = choose|k: int| first_named_at(local, h.name, k);
                assert(m.len() == local.len());
                assert forall|i: int| 0 <= i < m.len() implies (lookup(loaded(l).refs, (#[trigger] m[i]).full_name) matches Some(x)
                    && x.target == m[i].target && x.name == m[i].name) by {
                    assert(m[i].full_name == local[i].full_name && m[i].target == local[i].target && m[i].name == local[i].name);
                    assert(lookup(loaded(l).refs, local[i].full_name) == Some(local[i]));
                }
                assert forall|i: int, j: int| 0 <= i < m.len() && 0 <= j < m.len() && (#[trigger] m[i]).is_head
                    && (#[trigger] m[j]).is_head implies i == j by {
                    if i != k {
                        assert(m[i] == local[i]);
                    }
                    if j != k {
                        assert(m[j] == local[j]);
                    }
                }
                assert forall|i: int| 0 <= i < m.len() && (#[trigger] m[i]).is_head implies m[i].name == h.name by {
                    if i != k {
                        assert(m[i] == local[i]);
                    }
                }
            } else {
                assert(m == local);
                assert forall|i: int| 0 <= i < m.len() implies (lookup(loaded(l).refs, (#[trigger] m[i]).full_name) matches Some(x)
                    && x.target == m[i].target && x.name == m[i].name) by {
                    assert(lookup(loaded(l).refs, local[i].full_name) == Some(local[i]));
                }
            }
        },
        None => {},
    }
}

/// Reference tables of a repository.
#[derive(Debug, Clone)]
pub struct RefManager {
    refs: Vec<GitRef>,
    branches: Vec<GitRef>,
    tags: Vec<GitRef>,
    remotes: Vec<GitRef>,
    head_ref: Option<GitRef>,
}

impl View for RefManager {
    type V = RefTables;

    closed spec fn view(&self) -> RefTables {
        RefTables {
            refs: ref_models(self.refs@),
            branches: ref_models(self.branches@),
            tags: ref_models(self.tags@),
            remotes: ref_models(self.remotes@),
            head: match self.head_ref {
                Some(h) => Some(h@),
                None => None,
            },
        }
    }
}

fn ref_new(name: String, full_name: String, target: String, ref_type: RefType) -> (r: GitRef)
    ensures
        r@ == (RefModel {
            name: name@,
            full_name: full_name@,
            target: target@,
            ref_type,
            is_head: false,
        }),
{
    GitRef { name, full_name, target, ref_type, is_head: false }
}

fn copy_ref(r: &GitRef) -> (c: GitRef)
    ensures
        c@ == r@,
{
    GitRef {
        name: owned(r.name.as_str()),
        full_name: owned(r.full_name.as_str()),
        target: owned(r.target.as_str()),
        ref_type: r.ref_type,
        is_head: r.is_head,
    }
}

fn copy_opt(o: &Option<String>) -> (c: Option<String>)
    ensures
        opt_view(c) == opt_view(*o),
{
    match o {
        Some(s) => Some(owned(s.as_str())),
        None => None,
    }
}

fn branch_ref(f: &BranchFacts, remote: bool) -> (r: Option<GitRef>)
    ensures
        match r {
            Some(g) => branch_model(*f, remote) == Some(g@),
            None => branch_model(*f, remote) is None,
        },
{
    match (&f.name, &f.target) {
        (Some(n), Some(t)) => {
            let full = if remote {
                concat("refs/remotes/", n.as_str())
            } else {
                concat("refs/heads/", n.as_str())
            };
            let ty = if remote {
                RefType::RemoteBranch
            } else {
                RefType::LocalBranch
            };
            Some(ref_new(owned(n.as_str()), full, owned(t.as_str()), ty))
        },
        _ => None,
    }
}

fn tag_ref(f: &TagFacts) -> (r: Option<GitRef>)
    ensures
        match r {
            Some(g) => tag_model(*f) == Some(g@),
            None => tag_model(*f) is None,
        },
{
    match &f.name {
        Some(n) => {
            let target = match &f.target {
                Some(t) => Some(owned(t.as_str())),
                None => copy_opt(&f.peeled),
            };
            match target {
                Some(t) => Some(
                    ref_new(owned(n.as_str()), concat("refs/tags/", n.as_str()), t, RefType::Tag),
                ),
                None => None,
            }
        },
        None => None,
    }
}

fn head_ref(h: &HeadFacts) -> (r: Option<GitRef>)
    ensures
        match r {
            Some(g) => head_model(*h) == Some(g@),
            None => head_model(*h) is None,
        },
{
    let target = match &h.target {
        Some(t) => Some(owned(t.as_str())),
        None => copy_opt(&h.peeled),
    };
    match target {
        Some(t) => {
            let (name, ty) = match (&h.shorthand, h.is_branch) {
                (Some(s), true) => (owned(s.as_str()), RefType::LocalBranch),
                _ => (owned("HEAD"), RefType::Head),
            };
            Some(GitRef { name, full_name: owned("HEAD"), target: t, ref_type: ty, is_head: true })
        },
        None => None,
    }
}

impl RefManager {
    /// Empty tables.
    pub fn new() -> (r: RefManager)
        ensures
            r@.refs == Seq::<RefModel>::empty(),
            r@.branches == Seq::<RefModel>::empty(),
            r@.tags == Seq::<RefModel>::empty(),
            r@.remotes == Seq::<RefModel>::empty(),
            r@.head is None,
    {
        let r = RefManager {
            refs: Vec::new(),
            branches: Vec::new(),
            tags: Vec::new(),
            remotes: Vec::new(),
            head_ref: None,
        };
        assert(ref_models(r.refs@) =~= Seq::<RefModel>::empty());
        assert(ref_models(r.branches@) =~= Seq::<RefModel>::empty());
        r
    }

    /// Position of the first entry of `refs` under `key`.
    fn find_key(refs: &Vec<GitRef>, key: &str) -> (r: Option<usize>)
        ensures
            match r {
                Some(i) => i < refs@.len() && has_key(ref_models(refs@), key@) && i == key_index(
                    ref_models(refs@),
                    key@,
                ),
                None => !has_key(ref_models(refs@), key@),
            },
    {
        let ghost t = ref_models(refs@);
        proof {
            lemma_key_index(t, key@);
        }
        let mut i: usize = 0;
        while i < refs.len()
            invariant
                i <= refs.len(),
                ref_models(refs@) == t,
                forall|k: int| #[trigger] first_key_at(t, key@, k) ==> k == key_index(t, key@),
                forall|j: int| 0 <= j < i ==> #[trigger] t[j].full_name != key@,
            decreases refs.len() - i,
        {
            assert(t[i as int] == refs@[i as int]@);
            if string_eq(refs[i].full_name.as_str(), key) {
                assert(first_key_at(t, key@, i as int));
                return Some(i);
            }
            i = i + 1;
        }
        None
    }

    /// Stores `r` in the table `refs` under its full name.
    fn store(refs: &mut Vec<GitRef>, r: GitRef)
        ensures
            ref_models(final(refs)@) == upsert(ref_models(old(refs)@), r@),
    {
        let ghost t = ref_models(refs@);
        let ghost rv = r@;
        match Self::find_key(refs, r.full_name.as_str()) {
            Some(i) => {
                refs.set(i, r);
                assert(ref_models(refs@) =~= t.update(i as int, rv));
            },
            None => {
                refs.push(r);
                assert(ref_models(refs@) =~= t.push(rv));
            },
        }
    }

    /// Replaces the tables by those that `listing` describes: local and
    /// remote branches, then tags, then HEAD, each stored under its full name
    /// and appended to its own list; the first local branch named like HEAD is
    /// marked as HEAD.
    pub fn load_listing(&mut self, listing: &RefListing)
        ensures
            final(self)@ == loaded(*listing),
    {
        let mut refs: Vec<GitRef> = Vec::new();
        let mut branches: Vec<GitRef> = Vec::new();
        let mut remotes: Vec<GitRef> = Vec::new();
        let mut tags: Vec<GitRef> = Vec::new();
        assert(ref_models(refs@) =~= Seq::<RefModel>::empty());
        assert(ref_models(branches@) =~= Seq::<RefModel>::empty());
        assert(ref_models(remotes@) =~= Seq::<RefModel>::empty());
        assert(ref_models(tags@) =~= Seq::<RefModel>::empty());
        let ghost base = Seq::<RefModel>::empty();
        let mut i: usize = 0;
        while i < listing.local.len()
            invariant
                i <= listing.local.len(),
                ref_models(branches@) == branch_models(listing.local@.take(i as int), false),
                ref_models(refs@) == upsert_all(
                    base,
                    branch_models(listing.local@.take(i as int), false),
                ),
            decreases listing.local.len() - i,
        {
            let ghost s = listing.local@.take(i as int + 1);
            assert(s.drop_last() =~= listing.local@.take(i as int));
            assert(s.last() == listing.local@[i as int]);
            match branch_ref(&listing.local[i], false) {
                Some(g) => {
                    let c = copy_ref(&g);
                    Self::store(&mut refs, c);
                    branches.push(g);
                    assert(ref_models(branches@) =~= branch_models(s, false));
                    assert(branch_models(s, false).drop_last() =~= branch_models(
                        listing.local@.take(i as int),
                        false,
                    ));
                },
                None => {},
            }
            i = i + 1;
        }
        assert(listing.local@.take(listing.local.len() as int) =~= listing.local@);
        let ghost base1 = ref_models(refs@);
        let ghost local = branch_models(listing.local@, false);
        let mut i: usize = 0;
        while i < listing.remote.len()
            invariant
                i <= listing.remote.len(),
                ref_models(branches@) == local,
                ref_models(remotes@) == branch_models(listing.remote@.take(i as int), true),
                ref_models(refs@) == upsert_all(
                    base1,
                    branch_models(listing.remote@.take(i as int), true),
                ),
            decreases listing.remote.len() - i,
        {
            let ghost s = listing.remote@.take(i as int + 1);
            assert(s.drop_last() =~= listing.remote@.take(i as int));
            assert(s.last() == listing.remote@[i as int]);
            match branch_ref(&listing.remote[i], true) {
                Some(g) => {
                    let c = copy_ref(&g);
                    Self::store(&mut refs, c);
                    remotes.push(g);
                    assert(ref_models(remotes@) =~= branch_models(s, true));
                    assert(branch_models(s, true).drop_last() =~= branch_models(
                        listing.remote@.take(i as int),
                        true,
                    ));
                },
                None => {},
            }
            i = i + 1;
        }
        assert(listing.remote@.take(listing.remote.len() as int) =~= listing.remote@);
        let ghost base2 = ref_models(refs@);
        let mut i: usize = 0;
        while i < listing.tags.len()
            invariant
                i <= listing.tags.len(),
                ref_models(branches@) == local,
                ref_models(remotes@) == branch_models(listing.remote@, true),
                ref_models(tags@) == tag_models(listing.tags@.take(i as int)),
                ref_models(refs@) == upsert_all(base2, tag_models(listing.tags@.take(i as int))),
            decreases listing.tags.len() - i,
        {
            let ghost s = listing.tags@.take(i as int + 1);
            assert(s.drop_last() =~= listing.tags@.take(i as int));
            assert(s.last() == listing.tags@[i as int]);
            match tag_ref(&listing.tags[i]) {
                Some(g) => {
                    let c = copy_ref(&g);
                    Self::store(&mut refs, c);
                    tags.push(g);
                    assert(ref_models(tags@) =~= tag_models(s));
                    assert(tag_models(s).drop_last() =~= tag_models(listing.tags@.take(i as int)));
                },
                None => {},
            }
            i = i + 1;
        }
        assert(listing.tags@.take(listing.tags.len() as int) =~= listing.tags@);
        let mut head: Option<GitRef> = None;
        match &listing.head {
            Some(h) => {
                match head_ref(h) {
                    Some(g) => {
                        Self::mark_head_branch(&mut branches, g.name.as_str());
                        let c = copy_ref(&g);
                        Self::store(&mut refs, c);
                        head = Some(g);
                    },
                    None => {},
                }
            },
            None => {},
        }
        self.refs = refs;
        self.branches = branches;
        self.tags = tags;
        self.remotes = remotes;
        self.head_ref = head;
    }

    /// Position of the first branch named `name`.
    fn find_named(branches: &Vec<GitRef>, name: &str) -> (r: Option<usize>)
        ensures
            match r {
                Some(i) => first_named_at(ref_models(branches@), name@, i as int),
                None => !exists|k: int| first_named_at(ref_models(branches@), name@, k),
            },
    {
        let ghost s = ref_models(branches@);
        let mut i: usize = 0;
        while i < branches.len()
            invariant
                i <= branches.len(),
                ref_models(branches@) == s,
                forall|j: int| 0 <= j < i ==> #[trigger] s[j].name != name@,
            decreases branches.len() - i,
        {
            assert(s[i as int] == branches@[i as int]@);
            if string_eq(branches[i].name.as_str(), name) {
                assert(first_named_at(s, name@, i as int));
                return Some(i);
            }
            i = i + 1;
        }
        None
    }

    /// Marks the first branch named `name` as HEAD.
    fn mark_head_branch(branches: &mut Vec<GitRef>, name: &str)
        ensures
            ref_models(final(branches)@) == mark_first_named(ref_models(old(branches)@), name@),
    {
        let ghost s = ref_models(branches@);
        match Self::find_named(branches, name) {
            Some(i) => {
                let ghost k = choose|k: int| first_named_at(s, name@, k);
                assert(k == i) by {
                    if k < i {
                        assert(s[k].name != name@);
                    } else if k > i {
                        assert(s[i as int].name != name@);
                    }
                }
                let mut b = copy_ref(&branches[i]);
                assert(b@ == s[i as int]);
                b.is_head = true;
                branches.set(i, b);
                assert(ref_models(branches@) =~= s.update(
                    i as int,
                    RefModel { is_head: true, ..s[i as int] },
                ));
            },
            None => {},
        }
    }

    /// Local branches followed by remote branches.
    pub fn get_branches(&self) -> (r: Vec<&GitRef>)
        ensures
            borrowed_models(r@) == self@.branches + self@.remotes,
    {
        let mut all: Vec<&GitRef> = Vec::new();
        let mut i: usize = 0;
        while i < self.branches.len()
            invariant
                i <= self.branches.len(),
                all@.len() == i,
                borrowed_models(all@) == ref_models(self.branches@).take(i as int),
            decreases self.branches.len() - i,
        {
            let ghost prev = all@;
            all.push(&self.branches[i]);
            assert(all@ == prev.push(&self.branches@[i as int]));
            assert(all@[i as int]@ == self.branches@[i as int]@);
            i = i + 1;
            assert(borrowed_models(all@) =~= ref_models(self.branches@).take(i as int));
        }
        assert(ref_models(self.branches@).take(self.branches.len() as int) =~= ref_models(
            self.branches@,
        ));
        let mut j: usize = 0;
        while j < self.remotes.len()
            invariant
                j <= self.remotes.len(),
                all@.len() == self.branches@.len() + j,
                borrowed_models(all@) == ref_models(self.branches@) + ref_models(
                    self.remotes@,
                ).take(j as int),
            decreases self.remotes.len() - j,
        {
            let ghost prev = all@;
            all.push(&self.remotes[j]);
            assert(all@ == prev.push(&self.remotes@[j as int]));
            assert(borrowed_models(all@) =~= borrowed_models(prev).push(self.remotes@[j as int]@));
            assert(ref_models(self.remotes@).take(j as int + 1) =~= ref_models(self.remotes@).take(
                j as int,
            ).push(self.remotes@[j as int]@));
            j = j + 1;
            assert(borrowed_models(all@) =~= ref_models(self.branches@) + ref_models(
                self.remotes@,
            ).take(j as int));
        }
        assert(ref_models(self.remotes@).take(self.remotes.len() as int) =~= ref_models(
            self.remotes@,
        ));
        all
    }

    /// Local branches.
    pub fn get_local_branches(&self) -> (r: &[GitRef])
        ensures
            ref_models(r@) == self@.branches,
    {
        self.branches.as_slice()
    }

    /// Remote branches.
    pub fn get_remote_branches(&self) -> (r: &[GitRef])
        ensures
            ref_models(r@) == self@.remotes,
    {
        self.remotes.as_slice()
    }

    /// Tags.
    pub fn get_tags(&self) -> (r: &[GitRef])
        ensures
            ref_models(r@) == self@.tags,
    {
        self.tags.as_slice()
    }

    /// The HEAD entry.
    pub fn get_head(&self) -> (r: Option<&GitRef>)
        ensures
            match r {
                Some(h) => self@.head == Some(h@),
                None => self@.head is None,
            },
    {
        match &self.head_ref {
            Some(h) => Some(h),
            None => None,
        }
    }

    /// The reference stored under the full name `name` ("HEAD" for HEAD).
    pub fn get_ref(&self, name: &str) -> (r: Option<&GitRef>)
        ensures
            match r {
                Some(g) => lookup(self@.refs, name@) == Some(g@),
                None => lookup(self@.refs, name@) is None,
            },
    {
        let ghost t = ref_models(self.refs@);
        proof {
            lemma_key_index(t, name@);
        }
        let mut i: usize = 0;
        while i < self.refs.len()
            invariant
                i <= self.refs.len(),
                t == ref_models(self.refs@),
                forall|k: int| #[trigger] first_key_at(t, name@, k) ==> k == key_index(t, name@),
                forall|j: int| 0 <= j < i ==> #[trigger] t[j].full_name != name@,
            decreases self.refs.len() - i,
        {
            assert(t[i as int] == self.refs@[i as int]@);
            if string_eq(self.refs[i].full_name.as_str(), name) {
                assert(first_key_at(t, name@, i as int));
                return Some(&self.refs[i]);
            }
            i = i + 1;
        }
        None
    }

    /// Every stored reference.
    pub fn get_all_refs(&self) -> (r: Vec<&GitRef>)
        ensures
            borrowed_models(r@) == self@.refs,
    {
        let mut all: Vec<&GitRef> = Vec::new();
        let mut i: usize = 0;
        while i < self.refs.len()
            invariant
                i <= self.refs.len(),
                all@.len() == i,
                borrowed_models(all@) == ref_models(self.refs@).take(i as int),
            decreases self.refs.len() - i,
        {
            all.push(&self.refs[i]);
            i = i + 1;
            assert(borrowed_models(all@) =~= ref_models(self.refs@).take(i as int));
        }
        assert(ref_models(self.refs@).take(self.refs.len() as int) =~= ref_models(self.refs@));
        all
    }

    /// Stored references that point at `commit_sha`.
    pub fn get_refs_for_commit(&self, commit_sha: &str) -> (r: Vec<&GitRef>)
        ensures
            borrowed_models(r@) == self@.refs.filter(|m: RefModel| m.target == commit_sha@),
    {
        let ghost t = ref_models(self.refs@);
        let mut all: Vec<&GitRef> = Vec::new();
        let mut i: usize = 0;
        while i < self.refs.len()
            invariant
                i <= self.refs.len(),
                t == ref_models(self.refs@),
                borrowed_models(all@) == t.take(i as int).filter(
                    |m: RefModel| m.target == commit_sha@,
                ),
            decreases self.refs.len() - i,
        {
            assert(t.take(i as int + 1).drop_last() =~= t.take(i as int));
            assert(t.take(i as int + 1).last() == self.refs@[i as int]@);
            proof {
                reveal(Seq::filter);
            }
            let ghost prev = all@;
            if string_eq(self.refs[i].target.as_str(), commit_sha) {
                all.push(&self.refs[i]);
                assert(all@ == prev.push(&self.refs@[i as int]));
            }
            i = i + 1;
            assert(borrowed_models(all@) =~= t.take(i as int).filter(
                |m: RefModel| m.target == commit_sha@,
            ));
        }
        assert(t.take(self.refs.len() as int) =~= t);
        all
    }

    /// Name of the checked-out local branch, if HEAD is on one.
    pub fn get_current_branch(&self) -> (r: Option<String>)
        ensures
            match self@.head {
                Some(h) => if h.ref_type == RefType::LocalBranch {
                    r is Some && r->0@ == h.name
                } else {
                    r is None
                },
                None => r is None,
            },
    {
        match &self.head_ref {
            Some(h) => if h.ref_type == RefType::LocalBranch {
                Some(owned(h.name.as_str()))
            } else {
                None
            },
            None => None,
        }
    }

    /// Whether HEAD is detached.
    pub fn is_detached_head(&self) -> (r: bool)
        ensures
            r == match self@.head {
                Some(h) => h.ref_type == RefType::Head,
                None => false,
            },
    {
        match &self.head_ref {
            Some(h) => h.ref_type == RefType::Head,
            None => false,
        }
    }
}

/// After loading, looking up a reference by its full name gives the
/// reference loaded last under that name: HEAD under "HEAD", otherwise the
/// last tag, remote or local branch so named.
pub proof fn lemma_loaded_head_lookup(l: RefListing)
    ensures
        keys_unique(loaded(l).refs),
        loaded(l).head is Some ==> lookup(loaded(l).refs, "HEAD"@) == loaded(l).head,
{
    let local = branch_models(l.local@, false);
    let remote = branch_models(l.remote@, true);
    let tags = tag_models(l.tags@);
    let e = Seq::<RefModel>::empty();
    lemma_upsert_all_unique(e, local);
    lemma_upsert_all_unique(upsert_all(e, local), remote);
    lemma_upsert_all_unique(upsert_all(upsert_all(e, local), remote), tags);
    let refs0 = upsert_all(upsert_all(upsert_all(e, local), remote), tags);
    match l.head {
        Some(h) => match head_model(h) {
            Some(m) => {
                lemma_upsert(refs0, m);
            },
            None => {},
        },
        None => {},
    }
}

/// Detached HEAD and a current branch exclude each other.
pub proof fn lemma_detached_excludes_branch(t: RefTables)
    ensures
        (match t.head {
            Some(h) => h.ref_type == RefType::Head,
            None => false,
        }) ==> !(match t.head {
            Some(h) => h.ref_type == RefType::LocalBranch,
            None => false,
        }),
{
}

} // verus!
