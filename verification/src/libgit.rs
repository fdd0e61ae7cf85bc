//! Calls into libgit2 (through the `git2` crate) and the plain values they
//! hand back.
//!
//! Each function here performs one libgit2 operation and converts its
//! result. What a call returns depends on the repository on disk (and, for
//! fetch and push, on the network), so apart from object-id parsing nothing
//! is stated about results: the managers that call these functions are
//! verified for every outcome.

use vstd::prelude::*;
use crate::references::HeadFacts;
use crate::remotes::{credentials_for, report_download, Credentials, CredentialsProvider, ProgressHandler};
use crate::text::{all_hex, ascii_lower_seq};

verus! {

#[verifier::external_type_specification]
#[verifier::external_body]
pub struct ExRepository(git2::Repository);

#[verifier::external_type_specification]
#[verifier::external_body]
pub struct ExSignature<'a>(git2::Signature<'a>);

/// Author, committer or tagger of an object.
#[derive(Debug, Clone)]
pub struct SigFacts {
    /// The name, when it is valid UTF-8.
    pub name: Option<String>,
    /// The e-mail address, when it is valid UTF-8.
    pub email: Option<String>,
    /// Seconds since the Unix epoch.
    pub when: i64,
}

/// What the library reads of a commit.
#[derive(Debug)]
pub struct CommitFacts {
    pub id: String,
    /// The abbreviated id (an error when it cannot be computed, `None` when
    /// it is not valid UTF-8).
    pub short_id: Result<Option<String>, git2::Error>,
    pub author: SigFacts,
    pub committer: SigFacts,
    pub message: Option<String>,
    pub summary: Option<String>,
    pub parent_ids: Vec<String>,
    pub tree_id: String,
}

/// One side of an index conflict.
#[derive(Debug, Clone)]
pub struct EntryFacts {
    /// The path, when it is valid UTF-8.
    pub path: Option<String>,
    pub id: String,
    pub mode: u32,
}

/// The three sides of an index conflict.
#[derive(Debug, Clone)]
pub struct ConflictSides {
    pub ancestor: Option<EntryFacts>,
    pub our: Option<EntryFacts>,
    pub their: Option<EntryFacts>,
}

/// A status entry of the working tree.
#[derive(Debug, Clone)]
pub struct FileStatus {
    pub path: Option<String>,
    pub wt_modified: bool,
    pub index_modified: bool,
    pub wt_deleted: bool,
    pub index_deleted: bool,
    pub wt_renamed: bool,
    pub index_renamed: bool,
    pub wt_new: bool,
    pub ignored: bool,
}

/// A tag reference as listed: its short name and the object it points to.
#[derive(Debug, Clone)]
pub struct RefItem {
    pub shorthand: Option<String>,
    pub target: Option<String>,
}

/// Kind of a Git object.
#[derive(Debug, Clone, Copy, PartialEq, Eq, Structural)]
pub enum ObjKind {
    Any,
    Commit,
    Tree,
    Blob,
    Tag,
}

/// What the library reads of an annotated tag object.
#[derive(Debug, Clone)]
pub struct TagObjectFacts {
    pub target_id: String,
    pub target_kind: Option<ObjKind>,
    pub message: Option<String>,
    pub tagger: Option<SigFacts>,
}

/// State of a repository (an operation in progress, or none).
#[derive(Debug, Clone, Copy, PartialEq, Eq, Structural)]
pub enum RepoState {
    Clean,
    Merge,
    Revert,
    RevertSequence,
    CherryPick,
    CherryPickSequence,
    Bisect,
    Rebase,
    RebaseInteractive,
    RebaseMerge,
    ApplyMailbox,
    ApplyMailboxOrRebase,
}

/// Kind of reset libgit2 performs.
#[derive(Debug, Clone, Copy, PartialEq, Eq, Structural)]
pub enum ResetKind {
    Soft,
    Mixed,
    Hard,
}

/// A branch removal: what the branch pointed to and was named before, and
/// whether the removal succeeded.
#[derive(Debug)]
pub struct BranchRemoval {
    pub target: Option<String>,
    pub refname: Option<String>,
    pub outcome: Result<(), git2::Error>,
}

/// Counters of a transfer.
#[derive(Debug, Clone, Copy)]
pub struct TransferCounts {
    pub total_objects: usize,
    pub indexed_objects: usize,
    pub received_objects: usize,
    pub local_objects: usize,
    pub total_deltas: usize,
    pub indexed_deltas: usize,
    pub received_bytes: usize,
}

/// What the library reads of a configured remote.
#[derive(Debug)]
pub struct RemoteFacts {
    pub url: Option<String>,
    pub push_url: Option<String>,
    pub fetch_refspecs: Result<Vec<Option<String>>, git2::Error>,
    pub push_refspecs: Result<Vec<Option<String>>, git2::Error>,
}

/// The 40-digit text of an object id given by a prefix of hexadecimal
/// digits: lower-cased and padded with zeros.
pub open spec fn oid_text(s: Seq<char>) -> Seq<char> {
    ascii_lower_seq(s) + Seq::new((40 - s.len()) as nat, |i: int| '0')
}

/// Opens the repository at `path` (`git2::Repository::open`).
#[verifier::external_body]
pub(crate) fn open_repository(path: &str) -> Result<git2::Repository, git2::Error> {
    git2::Repository::open(path)
}

/// Opens the repository at `path` without searching parent directories
/// (`git2::Repository::open_ext` with no flags).
#[verifier::external_body]
pub(crate) fn open_repository_ext(path: &str) -> Result<git2::Repository, git2::Error> {
    git2::Repository::open_ext(path, git2::RepositoryOpenFlags::empty(), &[] as &[&str])
}

/// Opens the repository `repo` lives in once more (`git2::Repository::open`
/// on `Repository::path`).
#[verifier::external_body]
pub(crate) fn reopen(repo: &git2::Repository) -> Result<git2::Repository, git2::Error> {
    git2::Repository::open(repo.path())
}

/// Parses an object id (`git2::Oid::from_str`) and gives its text. libgit2
/// accepts one to forty hexadecimal digits and pads them with zeros; the
/// text of an `Oid` is forty lower-case hexadecimal digits.
#[verifier::external_body]
pub(crate) fn parse_oid(s: &str) -> (r: Result<String, git2::Error>)
    ensures
        r is Ok <==> (1 <= s@.len() <= 40 && all_hex(s@)),
        r matches Ok(t) ==> t@ == oid_text(s@),
{
    git2::Oid::from_str(s).map(|o| o.to_string())
}

/// Reads a signature (`Signature::name`, `email`, `when`).
#[verifier::external_body]
pub(crate) fn signature_facts(sig: &git2::Signature) -> SigFacts {
    SigFacts {
        name: sig.name().map(|s| s.to_string()),
        email: sig.email().map(|s| s.to_string()),
        when: sig.when().seconds(),
    }
}

/// A signature with the current time (`git2::Signature::now`).
#[verifier::external_body]
pub(crate) fn signature_now(name: &str, email: &str) -> Result<git2::Signature<'static>, git2::Error> {
    git2::Signature::now(name, email)
}

/// The signature configured for the repository (`Repository::signature`).
#[verifier::external_body]
pub(crate) fn repo_signature(repo: &git2::Repository) -> Result<git2::Signature<'static>, git2::Error> {
    repo.signature()
}

/// What HEAD resolves to (`Repository::head`, then `target`,
/// `peel_to_commit`, `is_branch` and `shorthand` of the reference).
#[verifier::external_body]
pub(crate) fn head_facts(repo: &git2::Repository) -> Result<HeadFacts, git2::Error> {
    let head = repo.head()?;
    Ok(HeadFacts {
        target: head.target().map(|o| o.to_string()),
        peeled: head.peel_to_commit().ok().map(|c| c.id().to_string()),
        is_branch: head.is_branch(),
        shorthand: head.shorthand().map(|s| s.to_string()),
    })
}

#[verifier::external_type_specification]
#[verifier::external_body]
pub struct ExCommit<'a>(git2::Commit<'a>);

/// Reads a commit (`Commit::id`, `author`, `committer`, `message`, ...).
#[verifier::external_body]
pub(crate) fn facts_of(c: &git2::Commit) -> CommitFacts {
    let parent_ids = c.parent_ids().map(|p| p.to_string()).collect();
    CommitFacts {
        id: c.id().to_string(),
        short_id: c.as_object().short_id().map(|b| b.as_str().map(|s| s.to_string())),
        author: signature_facts(&c.author()),
        committer: signature_facts(&c.committer()),
        message: c.message().map(|s| s.to_string()),
        summary: c.summary().map(|s| s.to_string()),
        parent_ids,
        tree_id: c.tree_id().to_string(),
    }
}

/// Reads the commit `oid` (`Repository::find_commit`). A commit is found
/// only for an id that `Oid::from_str` accepts (one to forty hexadecimal
/// digits), and the commit found has that id.
#[verifier::external_body]
pub(crate) fn commit_facts(repo: &git2::Repository, oid: &str) -> (r: Result<CommitFacts, git2::Error>)
    ensures
        r matches Ok(f) ==> 1 <= oid@.len() <= 40 && all_hex(oid@) && f.id@ == oid_text(oid@),
{
    Ok(facts_of(&repo.find_commit(git2::Oid::from_str(oid)?)?))
}

/// Resolves a revision and reads it as a commit (`Repository::revparse_single`,
/// `Object::into_commit`); `None` when the object is not a commit.
#[verifier::external_body]
pub(crate) fn revparse_commit(repo: &git2::Repository, spec: &str) -> Result<Option<CommitFacts>, git2::Error> {
    let obj = repo.revparse_single(spec)?;
    match obj.into_commit() {
        Ok(c) => Ok(Some(facts_of(&c))),
        Err(_) => Ok(None),
    }
}

/// A walk of the history newest first (`Repository::revwalk` with time
/// sorting) from the commit the reference `name` peels to
/// (`Reference::peel_to_commit`).
#[verifier::external_body]
pub(crate) fn walk_from_reference<'a>(repo: &'a git2::Repository, name: &str) -> Result<git2::Revwalk<'a>, git2::Error> {
    let mut walk = repo.revwalk()?;
    walk.set_sorting(git2::Sort::TIME)?;
    walk.push(repo.find_reference(name)?.peel_to_commit()?.id())?;
    Ok(walk)
}

/// A listed branch: its name (an error when it cannot be read, `None` when
/// not UTF-8) and the commit it points to.
#[derive(Debug)]
pub struct BranchItem {
    pub name: Result<Option<String>, git2::Error>,
    pub target: Option<String>,
}

/// Lists branches (`Repository::branches`); an entry that cannot be read is
/// an error item.
#[verifier::external_body]
pub(crate) fn list_branches(repo: &git2::Repository, remote: bool) -> Result<Vec<Result<BranchItem, git2::Error>>, git2::Error> {
    let kind = if remote { git2::BranchType::Remote } else { git2::BranchType::Local };
    Ok(repo.branches(Some(kind))?.map(|b| b.map(|(b, _)| BranchItem {
        name: b.name().map(|n| n.map(|s| s.to_string())),
        target: b.get().target().map(|o| o.to_string()),
    })).collect())
}

/// The working directory of the repository, none when it is bare
/// (`Repository::workdir`), as text.
#[verifier::external_body]
pub(crate) fn workdir_of(repo: &git2::Repository) -> Option<String> {
    repo.workdir().map(|p| p.to_string_lossy().to_string())
}

/// The `.git` directory of the repository (`Repository::path`), as text.
#[verifier::external_body]
pub(crate) fn git_dir(repo: &git2::Repository) -> String {
    repo.path().to_string_lossy().to_string()
}

/// What `std::path::Path::file_name` gives for a path, when it is UTF-8.
pub uninterp spec fn path_file_name(path: Seq<char>) -> Option<Seq<char>>;

/// The last component of a path (`Path::file_name`), when it is UTF-8;
/// it depends on the text of the path alone.
#[verifier::external_body]
pub(crate) fn file_name_of(path: &str) -> (r: Option<String>)
    ensures
        r is Some <==> path_file_name(path@) is Some,
        r matches Some(n) ==> n@ == path_file_name(path@)->0,
{
    std::path::Path::new(path).file_name().and_then(|n| n.to_str()).map(|s| s.to_string())
}

/// Whether the repository is bare (`Repository::is_bare`).
#[verifier::external_body]
pub(crate) fn is_bare(repo: &git2::Repository) -> bool {
    repo.is_bare()
}

/// The commit HEAD peels to (`Repository::head`, `Reference::peel_to_commit`).
#[verifier::external_body]
pub(crate) fn head_commit_facts(repo: &git2::Repository) -> Result<CommitFacts, git2::Error> {
    Ok(facts_of(&repo.head()?.peel_to_commit()?))
}

/// A walk, newest first, of the commits reachable from `to` but not from
/// `from` (`Repository::revwalk` with time sorting and
/// `Revwalk::push_range` over the parsed ids).
#[verifier::external_body]
pub(crate) fn walk_range<'a>(repo: &'a git2::Repository, from: &str, to: &str) -> Result<git2::Revwalk<'a>, git2::Error> {
    let mut walk = repo.revwalk()?;
    walk.set_sorting(git2::Sort::TIME)?;
    let (to, from) = (git2::Oid::from_str(to)?, git2::Oid::from_str(from)?);
    walk.push_range(&format!("{}..{}", from, to))?;
    Ok(walk)
}

/// The content of the file `path` in the commit `oid` as lossy UTF-8, or
/// `None` when that path is not a file (`Tree::get_path`, `Object::as_blob`).
#[verifier::external_body]
pub(crate) fn blob_text(repo: &git2::Repository, oid: &str, path: &str) -> Result<Option<String>, git2::Error> {
    let tree = repo.find_commit(git2::Oid::from_str(oid)?)?.tree()?;
    let obj = tree.get_path(std::path::Path::new(path))?.to_object(repo)?;
    Ok(obj.as_blob().map(|b| String::from_utf8_lossy(b.content()).into_owned()))
}

/// Lists tag names (`Repository::tag_names`); `None` for names that are
/// not valid UTF-8.
#[verifier::external_body]
pub(crate) fn tag_names(repo: &git2::Repository) -> Result<Vec<Option<String>>, git2::Error> {
    Ok(repo.tag_names(None)?.iter().map(|t| t.map(|s| s.to_string())).collect())
}

/// Lists remote names (`Repository::remotes`).
#[verifier::external_body]
pub(crate) fn remote_names(repo: &git2::Repository) -> Result<Vec<Option<String>>, git2::Error> {
    Ok(repo.remotes()?.iter().map(|t| t.map(|s| s.to_string())).collect())
}

/// The object a reference points to directly (`Repository::find_reference`,
/// `Reference::target`).
#[verifier::external_body]
pub(crate) fn reference_target(repo: &git2::Repository, name: &str) -> Result<Option<String>, git2::Error> {
    Ok(repo.find_reference(name)?.target().map(|o| o.to_string()))
}

/// The commit a reference peels to (`Reference::peel_to_commit`).
#[verifier::external_body]
pub(crate) fn reference_peeled(repo: &git2::Repository, name: &str) -> Result<String, git2::Error> {
    Ok(repo.find_reference(name)?.peel_to_commit()?.id().to_string())
}

/// Deletes a reference: the outer error is the lookup's
/// (`Repository::find_reference`), the inner one the deletion's
/// (`Reference::delete`).
#[verifier::external_body]
pub(crate) fn delete_reference(repo: &git2::Repository, name: &str) -> Result<Result<(), git2::Error>, git2::Error> {
    let mut r = repo.find_reference(name)?;
    Ok(r.delete())
}

/// Creates or moves a direct reference (`Repository::reference`).
#[verifier::external_body]
pub(crate) fn create_reference(repo: &git2::Repository, name: &str, oid: &str, force: bool, log: &str) -> Result<(), git2::Error> {
    repo.reference(name, git2::Oid::from_str(oid)?, force, log).map(|_| ())
}

/// Lists the references under `refs/tags/` (`Repository::references_glob`).
#[verifier::external_body]
pub(crate) fn tag_references(repo: &git2::Repository) -> Result<Vec<Result<RefItem, git2::Error>>, git2::Error> {
    Ok(repo.references_glob("refs/tags/*")?.map(|r| r.map(|r| RefItem {
        shorthand: r.shorthand().map(|s| s.to_string()),
        target: r.target().map(|o| o.to_string()),
    })).collect())
}

#[verifier::external_type_specification]
#[verifier::external_body]
pub struct ExObjectType(git2::ObjectType);

/// Tells the kinds of `git2::ObjectType` apart.
#[verifier::external_body]
pub(crate) fn object_kind_of(k: git2::ObjectType) -> ObjKind {
    match k {
        git2::ObjectType::Any => ObjKind::Any,
        git2::ObjectType::Commit => ObjKind::Commit,
        git2::ObjectType::Tree => ObjKind::Tree,
        git2::ObjectType::Blob => ObjKind::Blob,
        git2::ObjectType::Tag => ObjKind::Tag,
    }
}

/// The kind of the object `oid` (`Repository::find_object`, `Object::kind`).
#[verifier::external_body]
pub(crate) fn object_kind(repo: &git2::Repository, oid: &str) -> Result<Option<ObjKind>, git2::Error> {
    let obj = repo.find_object(git2::Oid::from_str(oid)?, None)?;
    Ok(obj.kind().map(object_kind_of))
}

/// Reads the annotated tag object `oid` (`Repository::find_tag`).
#[verifier::external_body]
pub(crate) fn tag_object(repo: &git2::Repository, oid: &str) -> Result<TagObjectFacts, git2::Error> {
    let tag = repo.find_tag(git2::Oid::from_str(oid)?)?;
    Ok(TagObjectFacts {
        target_id: tag.target_id().to_string(),
        target_kind: tag.target_type().map(object_kind_of),
        message: tag.message().map(|s| s.to_string()),
        tagger: tag.tagger().map(|s| signature_facts(&s)),
    })
}

/// Creates an annotated tag on the object `oid` (`Repository::tag`).
#[verifier::external_body]
pub(crate) fn create_tag_object(repo: &git2::Repository, name: &str, oid: &str, tagger: &git2::Signature, message: &str, force: bool) -> Result<(), git2::Error> {
    let obj = repo.find_object(git2::Oid::from_str(oid)?, None)?;
    repo.tag(name, &obj, tagger, message, force).map(|_| ())
}

/// Creates a branch at the commit `oid`: the outer error is the commit
/// lookup's (`Repository::find_commit`), the inner one the creation's
/// (`Repository::branch`), which gives the new reference's name.
#[verifier::external_body]
pub(crate) fn create_branch(repo: &git2::Repository, name: &str, oid: &str) -> Result<Result<Option<String>, git2::Error>, git2::Error> {
    let c = repo.find_commit(git2::Oid::from_str(oid)?)?;
    Ok(repo.branch(name, &c, false).map(|b| b.get().name().map(|s| s.to_string())))
}

/// The commit a local branch points to (`Repository::find_branch`).
#[verifier::external_body]
pub(crate) fn branch_target(repo: &git2::Repository, name: &str) -> Result<Option<String>, git2::Error> {
    Ok(repo.find_branch(name, git2::BranchType::Local)?.get().target().map(|o| o.to_string()))
}

/// Deletes a local branch (`Repository::find_branch`, `Branch::delete`).
#[verifier::external_body]
pub(crate) fn delete_branch(repo: &git2::Repository, name: &str) -> Result<BranchRemoval, git2::Error> {
    let mut b = repo.find_branch(name, git2::BranchType::Local)?;
    let target = b.get().target().map(|o| o.to_string());
    let refname = b.get().name().map(|s| s.to_string());
    Ok(BranchRemoval { target, refname, outcome: b.delete() })
}

/// Checks out the tree of the commit `oid` (`Repository::checkout_tree`).
#[verifier::external_body]
pub(crate) fn checkout_commit_tree(repo: &git2::Repository, oid: &str) -> Result<(), git2::Error> {
    let tree = repo.find_commit(git2::Oid::from_str(oid)?)?.tree()?;
    repo.checkout_tree(tree.as_object(), None)
}

/// Points HEAD at a reference (`Repository::set_head`).
#[verifier::external_body]
pub(crate) fn set_head(repo: &git2::Repository, refname: &str) -> Result<(), git2::Error> {
    repo.set_head(refname)
}

/// The state of the repository (`Repository::state`).
#[verifier::external_body]
pub(crate) fn repo_state(repo: &git2::Repository) -> RepoState {
    match repo.state() {
        git2::RepositoryState::Clean => RepoState::Clean,
        git2::RepositoryState::Merge => RepoState::Merge,
        git2::RepositoryState::Revert => RepoState::Revert,
        git2::RepositoryState::RevertSequence => RepoState::RevertSequence,
        git2::RepositoryState::CherryPick => RepoState::CherryPick,
        git2::RepositoryState::CherryPickSequence => RepoState::CherryPickSequence,
        git2::RepositoryState::Bisect => RepoState::Bisect,
        git2::RepositoryState::Rebase => RepoState::Rebase,
        git2::RepositoryState::RebaseInteractive => RepoState::RebaseInteractive,
        git2::RepositoryState::RebaseMerge => RepoState::RebaseMerge,
        git2::RepositoryState::ApplyMailbox => RepoState::ApplyMailbox,
        git2::RepositoryState::ApplyMailboxOrRebase => RepoState::ApplyMailboxOrRebase,
    }
}

/// Cherry-picks the commit `oid` into the index and working tree
/// (`Repository::cherrypick` with default options).
#[verifier::external_body]
pub(crate) fn cherrypick(repo: &git2::Repository, oid: &str) -> Result<(), git2::Error> {
    let c = repo.find_commit(git2::Oid::from_str(oid)?)?;
    repo.cherrypick(&c, Some(&mut git2::CherrypickOptions::new()))
}

/// Reverts the commit `oid` in the index and working tree
/// (`Repository::revert` with default options).
#[verifier::external_body]
pub(crate) fn revert(repo: &git2::Repository, oid: &str) -> Result<(), git2::Error> {
    let c = repo.find_commit(git2::Oid::from_str(oid)?)?;
    repo.revert(&c, Some(&mut git2::RevertOptions::new()))
}

/// Resets HEAD to the commit `oid` (`Repository::reset`).
#[verifier::external_body]
pub(crate) fn reset(repo: &git2::Repository, oid: &str, kind: ResetKind) -> Result<(), git2::Error> {
    let c = repo.find_commit(git2::Oid::from_str(oid)?)?;
    let k = match kind {
        ResetKind::Soft => git2::ResetType::Soft,
        ResetKind::Mixed => git2::ResetType::Mixed,
        ResetKind::Hard => git2::ResetType::Hard,
    };
    repo.reset(c.as_object(), k, None)
}

/// Reads one side of an index conflict.
#[verifier::external_body]
pub(crate) fn entry_facts(e: &git2::IndexEntry) -> EntryFacts {
    EntryFacts {
        path: std::str::from_utf8(&e.path).ok().map(|s| s.to_string()),
        id: e.id.to_string(),
        mode: e.mode,
    }
}

#[verifier::external_type_specification]
#[verifier::external_body]
pub struct ExIndexEntry(git2::IndexEntry);

/// The conflicts recorded in the index (`Repository::index`,
/// `Index::conflicts`); an entry that cannot be read is an error item.
#[verifier::external_body]
pub(crate) fn index_conflicts(repo: &git2::Repository) -> Result<Vec<Result<ConflictSides, git2::Error>>, git2::Error> {
    Ok(repo.index()?.conflicts()?.map(|c| c.map(|c| ConflictSides {
        ancestor: c.ancestor.as_ref().map(entry_facts),
        our: c.our.as_ref().map(entry_facts),
        their: c.their.as_ref().map(entry_facts),
    })).collect())
}

/// The status entries of the working tree (`Repository::statuses`).
#[verifier::external_body]
pub(crate) fn status_entries(repo: &git2::Repository) -> Result<Vec<FileStatus>, git2::Error> {
    Ok(repo.statuses(None)?.iter().map(|e| status_of(&e)).collect())
}

#[verifier::external_type_specification]
#[verifier::external_body]
pub struct ExStatusEntry<'a>(git2::StatusEntry<'a>);

/// Reads a status entry (`StatusEntry::path`, `StatusEntry::status`).
#[verifier::external_body]
pub(crate) fn status_of(e: &git2::StatusEntry) -> FileStatus {
    let s = e.status();
    FileStatus {
        path: e.path().map(|p| p.to_string()),
        wt_modified: s.is_wt_modified(), index_modified: s.is_index_modified(),
        wt_deleted: s.is_wt_deleted(), index_deleted: s.is_index_deleted(),
        wt_renamed: s.is_wt_renamed(), index_renamed: s.is_index_renamed(),
        wt_new: s.is_wt_new(), ignored: s.is_ignored(),
    }
}

/// Old paths of the files a commit changed relative to its first parent
/// (`Repository::diff_tree_to_tree`), one per delta; `None` for a delta
/// without an old path or whose path is not UTF-8.
#[verifier::external_body]
pub(crate) fn changed_paths(repo: &git2::Repository, oid: &str) -> Result<Vec<Option<String>>, git2::Error> {
    let c = repo.find_commit(git2::Oid::from_str(oid)?)?;
    let diff = repo.diff_tree_to_tree(Some(&c.parent(0)?.tree()?), Some(&c.tree()?), None)?;
    Ok(diff.deltas().map(|d| d.old_file().path().and_then(|p| p.to_str()).map(|s| s.to_string())).collect())
}

/// Commits the index on top of the commit HEAD points to and moves HEAD to
/// it (`Repository::signature`, `Index::write_tree`, `Repository::commit`).
#[verifier::external_body]
pub(crate) fn commit_index(repo: &git2::Repository, parent: &str, message: &str) -> Result<String, git2::Error> {
    let sig = repo.signature()?;
    let tree = repo.find_tree(repo.index()?.write_tree()?)?;
    let parent = repo.find_commit(git2::Oid::from_str(parent)?)?;
    repo.commit(Some("HEAD"), &sig, &sig, message, &tree, &[&parent]).map(|o| o.to_string())
}

/// Stash options a stash is saved with.
#[derive(Debug, Clone, Copy)]
pub struct StashOptionSet {
    pub keep_index: bool,
    pub include_untracked: bool,
    pub include_ignored: bool,
}

/// Saves the local changes as a stash (`Repository::stash_save`).
#[verifier::external_body]
pub(crate) fn stash_save(repo: &mut git2::Repository, sig: &git2::Signature, message: &str, opts: StashOptionSet) -> Result<String, git2::Error> {
    let mut flags = git2::StashFlags::DEFAULT;
    flags.set(git2::StashFlags::KEEP_INDEX, opts.keep_index);
    flags.set(git2::StashFlags::INCLUDE_UNTRACKED, opts.include_untracked);
    flags.set(git2::StashFlags::INCLUDE_IGNORED, opts.include_ignored);
    repo.stash_save(sig, message, Some(flags)).map(|o| o.to_string())
}

/// Applies the stash at `index` (`Repository::stash_apply`).
#[verifier::external_body]
pub(crate) fn stash_apply(repo: &mut git2::Repository, index: usize, reinstate_index: bool) -> Result<(), git2::Error> {
    let mut opts = git2::StashApplyOptions::new();
    if reinstate_index {
        opts.reinstantiate_index();
    }
    repo.stash_apply(index, Some(&mut opts))
}

/// Drops the stash at `index` (`Repository::stash_drop`).
#[verifier::external_body]
pub(crate) fn stash_drop(repo: &mut git2::Repository, index: usize) -> Result<(), git2::Error> {
    repo.stash_drop(index)
}

/// Reads a configured remote (`Repository::find_remote`).
#[verifier::external_body]
pub(crate) fn remote_facts(repo: &git2::Repository, name: &str) -> Result<RemoteFacts, git2::Error> {
    let r = repo.find_remote(name)?;
    Ok(RemoteFacts {
        url: r.url().map(|s| s.to_string()),
        push_url: r.pushurl().map(|s| s.to_string()),
        fetch_refspecs: r.fetch_refspecs().map(|a| a.iter().map(|s| s.map(|s| s.to_string())).collect()),
        push_refspecs: r.push_refspecs().map(|a| a.iter().map(|s| s.map(|s| s.to_string())).collect()),
    })
}

/// Adds a remote (`Repository::remote`).
#[verifier::external_body]
pub(crate) fn add_remote(repo: &git2::Repository, name: &str, url: &str) -> Result<(), git2::Error> {
    repo.remote(name, url).map(|_| ())
}

/// Removes a remote (`Repository::remote_delete`).
#[verifier::external_body]
pub(crate) fn delete_remote(repo: &git2::Repository, name: &str) -> Result<(), git2::Error> {
    repo.remote_delete(name)
}

#[verifier::external_type_specification]
#[verifier::external_body]
pub struct ExCred(git2::Cred);

#[verifier::external_type_specification]
#[verifier::external_body]
pub struct ExRemoteCallbacks<'a>(git2::RemoteCallbacks<'a>);

/// Builds libgit2 credentials (`Cred::ssh_key`, `Cred::userpass_plaintext`,
/// `Cred::default`), one constructor per kind; a token is sent as the user
/// name with an empty password.
#[verifier::external_body]
pub(crate) fn git_credentials(c: &Credentials) -> Result<git2::Cred, git2::Error> {
    match c {
        Credentials::SshKey(k) => git2::Cred::ssh_key(&k.username, Some(std::path::Path::new(&k.public_key_path)),
            std::path::Path::new(&k.private_key_path), k.passphrase.as_deref()),
        Credentials::UserPassword(u) => git2::Cred::userpass_plaintext(&u.username, &u.password),
        Credentials::Token(t) => git2::Cred::userpass_plaintext(t, ""),
        Credentials::Default => git2::Cred::default(),
    }
}

/// Callbacks for a transfer (`RemoteCallbacks::credentials`,
/// `RemoteCallbacks::transfer_progress`): credentials come from the
/// provider, progress goes to the handler, which may cancel.
#[verifier::external_body]
pub(crate) fn transfer_callbacks<'a>(creds: &'a Option<Box<dyn CredentialsProvider>>, progress: &'a mut Option<Box<dyn ProgressHandler>>) -> git2::RemoteCallbacks<'a> {
    let mut cb = git2::RemoteCallbacks::new();
    if let Some(p) = creds.as_deref() {
        cb.credentials(move |url, user, _| git_credentials(&credentials_for(p, url, user)));
    }
    if let Some(h) = progress.as_deref_mut() {
        cb.transfer_progress(move |st| report_download(h, st.received_objects(), st.total_objects(), st.received_bytes()));
    }
    cb
}

/// Fetches `refspecs` from the remote `name` (`Remote::fetch`) and gives
/// the transfer counters (`Remote::stats`).
#[verifier::external_body]
pub(crate) fn remote_fetch(repo: &git2::Repository, name: &str, refspecs: &Vec<String>, cb: git2::RemoteCallbacks) -> Result<TransferCounts, git2::Error> {
    let mut remote = repo.find_remote(name)?;
    let mut opts = git2::FetchOptions::new();
    opts.remote_callbacks(cb);
    remote.fetch(refspecs, Some(&mut opts), None)?;
    let s = remote.stats();
    Ok(TransferCounts {
        total_objects: s.total_objects(), indexed_objects: s.indexed_objects(),
        received_objects: s.received_objects(), local_objects: s.local_objects(),
        total_deltas: s.total_deltas(), indexed_deltas: s.indexed_deltas(), received_bytes: s.received_bytes(),
    })
}

/// Pushes `refspecs` to the remote `name` (`Remote::push`).
#[verifier::external_body]
pub(crate) fn remote_push(repo: &git2::Repository, name: &str, refspecs: &Vec<String>, cb: git2::RemoteCallbacks) -> Result<(), git2::Error> {
    let mut remote = repo.find_remote(name)?;
    let mut opts = git2::PushOptions::new();
    opts.remote_callbacks(cb);
    remote.push(refspecs, Some(&mut opts))
}

#[verifier::external_type_specification]
#[verifier::external_body]
pub struct ExDiff<'a>(git2::Diff<'a>);

#[verifier::external_type_specification]
#[verifier::external_body]
pub struct ExPatch<'a>(git2::Patch<'a>);

#[verifier::external_type_specification]
#[verifier::external_body]
pub struct ExRevwalk<'a>(git2::Revwalk<'a>);

#[verifier::external_type_specification]
#[verifier::external_body]
pub struct ExOid(git2::Oid);

/// Kind of change of a diff delta.
#[derive(Debug, Clone, Copy, PartialEq, Eq, Structural)]
pub enum DeltaKind {
    Unmodified,
    Added,
    Deleted,
    Modified,
    Renamed,
    Copied,
    Ignored,
    Untracked,
    Typechange,
    Unreadable,
    Conflicted,
}

/// What the library reads of a diff delta.
#[derive(Debug, Clone)]
pub struct DeltaFacts {
    /// Old path (lossily converted to UTF-8).
    pub old_path: Option<String>,
    /// New path (lossily converted to UTF-8).
    pub new_path: Option<String>,
    pub kind: DeltaKind,
    /// Whether the old side is binary.
    pub old_binary: bool,
    /// Whether the new side is binary.
    pub new_binary: bool,
}

/// The range line of a hunk.
#[derive(Debug, Clone, Copy)]
pub struct HunkRange {
    pub old_start: u32,
    pub old_lines: u32,
    pub new_start: u32,
    pub new_lines: u32,
}

/// One line of a hunk.
#[derive(Debug, Clone)]
pub struct LineFacts {
    pub origin: char,
    /// Content, lossily converted to UTF-8.
    pub content: String,
    pub old_lineno: Option<u32>,
    pub new_lineno: Option<u32>,
}

/// Counters of a diff (`Diff::stats`).
#[derive(Debug, Clone, Copy)]
pub struct DiffCounts {
    pub files_changed: usize,
    pub insertions: usize,
    pub deletions: usize,
}

/// One entry met walking a tree.
#[derive(Debug, Clone)]
pub struct TreeItem {
    /// Path of the directory holding the entry, as libgit2 passes it.
    pub root: String,
    /// The entry's name, when it is UTF-8.
    pub name: Option<String>,
    pub id: String,
    pub filemode: i32,
}

/// The diff from the tree of the commit `old` (the empty tree when there
/// is none) to the tree of the commit `new`, optionally limited to
/// `pathspec` (`Repository::find_commit`, `Commit::tree`,
/// `DiffOptions::pathspec`, `Repository::diff_tree_to_tree`). A pathspec
/// holding a NUL character is left out: `DiffOptions::pathspec` panics on it.
#[verifier::external_body]
pub(crate) fn tree_diff<'a>(repo: &'a git2::Repository, old: Option<&str>, new: &str, pathspec: Option<&str>) -> Result<git2::Diff<'a>, git2::Error>
    requires
        pathspec matches Some(p) ==> !p@.contains('\0'),
{
    let old_tree = match old {
        Some(o) => Some(repo.find_commit(git2::Oid::from_str(o)?)?.tree()?),
        None => None,
    };
    let new_tree = repo.find_commit(git2::Oid::from_str(new)?)?.tree()?;
    let mut opts = git2::DiffOptions::new();
    if let Some(p) = pathspec {
        opts.pathspec(p);
    }
    repo.diff_tree_to_tree(old_tree.as_ref(), Some(&new_tree), Some(&mut opts))
}

/// Turns the deletions and additions of a diff that are renames or copies
/// into renamed or copied deltas (`Diff::find_similar` with the default
/// options).
#[verifier::external_body]
pub(crate) fn detect_renames(diff: &mut git2::Diff) -> Result<(), git2::Error> {
    diff.find_similar(None)
}

/// Number of deltas of a diff (`Diff::deltas`).
#[verifier::external_body]
pub(crate) fn delta_count(diff: &git2::Diff) -> usize {
    diff.deltas().len()
}

/// Tells the kinds of `git2::Delta` apart.
#[verifier::external_body]
pub(crate) fn delta_kind_of(d: git2::Delta) -> DeltaKind {
    match d {
        git2::Delta::Unmodified => DeltaKind::Unmodified,
        git2::Delta::Added => DeltaKind::Added,
        git2::Delta::Deleted => DeltaKind::Deleted,
        git2::Delta::Modified => DeltaKind::Modified,
        git2::Delta::Renamed => DeltaKind::Renamed,
        git2::Delta::Copied => DeltaKind::Copied,
        git2::Delta::Ignored => DeltaKind::Ignored,
        git2::Delta::Untracked => DeltaKind::Untracked,
        git2::Delta::Typechange => DeltaKind::Typechange,
        git2::Delta::Unreadable => DeltaKind::Unreadable,
        git2::Delta::Conflicted => DeltaKind::Conflicted,
    }
}

#[verifier::external_type_specification]
#[verifier::external_body]
pub struct ExDelta(git2::Delta);

/// Reads the delta at index `i` (`Diff::get_delta`).
#[verifier::external_body]
pub(crate) fn delta_at(diff: &git2::Diff, i: usize) -> Option<DeltaFacts> {
    diff.get_delta(i).map(|d| DeltaFacts {
        old_path: d.old_file().path().map(|p| p.to_string_lossy().to_string()),
        new_path: d.new_file().path().map(|p| p.to_string_lossy().to_string()),
        kind: delta_kind_of(d.status()),
        old_binary: d.old_file().is_binary(),
        new_binary: d.new_file().is_binary(),
    })
}

/// Counters of a diff (`Diff::stats`).
#[verifier::external_body]
pub(crate) fn diff_counts(diff: &git2::Diff) -> Result<DiffCounts, git2::Error> {
    let s = diff.stats()?;
    Ok(DiffCounts { files_changed: s.files_changed(), insertions: s.insertions(), deletions: s.deletions() })
}

/// The patch of the delta at index `i` (`Patch::from_diff`).
#[verifier::external_body]
pub(crate) fn patch_of<'a>(diff: &'a git2::Diff, i: usize) -> Result<Option<git2::Patch<'a>>, git2::Error> {
    git2::Patch::from_diff(diff, i)
}

/// Number of hunks of a patch (`Patch::num_hunks`).
#[verifier::external_body]
pub(crate) fn hunk_count(patch: &git2::Patch) -> usize {
    patch.num_hunks()
}

/// The range line of hunk `h` (`Patch::hunk`).
#[verifier::external_body]
pub(crate) fn hunk_range(patch: &git2::Patch, h: usize) -> Result<HunkRange, git2::Error> {
    let (hunk, _) = patch.hunk(h)?;
    Ok(HunkRange { old_start: hunk.old_start(), old_lines: hunk.old_lines(), new_start: hunk.new_start(), new_lines: hunk.new_lines() })
}

/// Number of lines of hunk `h` (`Patch::num_lines_in_hunk`).
#[verifier::external_body]
pub(crate) fn hunk_line_count(patch: &git2::Patch, h: usize) -> Result<usize, git2::Error> {
    patch.num_lines_in_hunk(h)
}

/// Line `l` of hunk `h` (`Patch::line_in_hunk`).
#[verifier::external_body]
pub(crate) fn hunk_line(patch: &git2::Patch, h: usize, l: usize) -> Result<LineFacts, git2::Error> {
    let line = patch.line_in_hunk(h, l)?;
    Ok(LineFacts {
        origin: line.origin(),
        content: String::from_utf8_lossy(line.content()).to_string(),
        old_lineno: line.old_lineno(),
        new_lineno: line.new_lineno(),
    })
}

/// Every entry of the tree of the commit `oid`, in pre-order
/// (`Tree::walk`).
#[verifier::external_body]
pub(crate) fn tree_items(repo: &git2::Repository, oid: &str) -> Result<Vec<TreeItem>, git2::Error> {
    let tree = repo.find_commit(git2::Oid::from_str(oid)?)?.tree()?;
    let mut items = Vec::new();
    tree.walk(git2::TreeWalkMode::PreOrder, |root, e| {
        items.push(TreeItem { root: root.to_string(), name: e.name().map(|n| n.to_string()), id: e.id().to_string(), filemode: e.filemode() });
        git2::TreeWalkResult::Ok
    })?;
    Ok(items)
}

/// The ids a walk hands out, at most `limit` of them, in order; the
/// first error ends the listing.
pub fn take_ids(walk: &mut git2::Revwalk, limit: usize) -> (r: Result<Vec<String>, git2::Error>)
    ensures
        r matches Ok(v) ==> v@.len() <= limit,
        limit == 0 ==> (r matches Ok(v) && v@.len() == 0),
{
    let mut out: Vec<String> = Vec::new();
    while out.len() < limit
        invariant
            out@.len() <= limit,
        decreases limit - out@.len(),
    {
        match walk_next(walk) {
            None => {
                break;
            },
            Some(Ok(id)) => out.push(id),
            Some(Err(e)) => {
                return Err(e);
            },
        }
    }
    Ok(out)
}

/// A walk of the history from HEAD, newest first (`Repository::revwalk`).
#[verifier::external_body]
pub(crate) fn walk_from_head(repo: &git2::Repository) -> Result<git2::Revwalk<'_>, git2::Error> {
    let mut walk = repo.revwalk()?;
    walk.set_sorting(git2::Sort::TIME)?;
    walk.push_head()?;
    Ok(walk)
}

/// A walk of the history from the commit `oid` (`Repository::revwalk`,
/// `Revwalk::push`).
#[verifier::external_body]
pub(crate) fn walk_from<'a>(repo: &'a git2::Repository, oid: &str) -> Result<git2::Revwalk<'a>, git2::Error> {
    let mut walk = repo.revwalk()?;
    walk.push(git2::Oid::from_str(oid)?)?;
    Ok(walk)
}

/// The next commit id of a walk (`Revwalk::next`).
#[verifier::external_body]
pub(crate) fn walk_next(walk: &mut git2::Revwalk) -> Option<Result<String, git2::Error>> {
    walk.next().map(|o| o.map(|o| o.to_string()))
}

} // verus!
