//! Commit operations: cherry-pick, revert, reset and aborting them.

use vstd::prelude::*;
use crate::libgit::{
    changed_paths, cherrypick, commit_facts, commit_index, head_facts, index_conflicts, oid_text,
    parse_oid, repo_signature, repo_state, reopen, reset, revert, signature_facts, status_entries,
    ConflictSides, EntryFacts, RepoState, ResetKind,
};
use crate::operations::{
    appended, check_commit_id, checked_commit_id, now_seconds, record_capped, OperationRecord,
    OperationType, HISTORY_LIMIT,
};
use crate::repository::{error_text, GitRepository};
use crate::tags::short8;
use crate::text::{append_str, concat, concat3, owned, prefix_chars, split_lines, starts_with, usize_to_string, decimal, lines};
use crate::views::{opt_chars, string_views};

verus! {

/// Outcome of a commit operation.
#[derive(Debug)]
pub struct CommitOperationResult {
    pub success: bool,
    pub operation: OperationType,
    pub commit_id: Option<String>,
    pub new_commit_id: Option<String>,
    pub message: String,
    pub conflicts: Vec<String>,
    pub modified_files: Vec<String>,
    pub reverted_files: Vec<String>,
}

/// Merge strategy of a cherry-pick or revert.
#[derive(Debug, Clone, Copy, PartialEq, Eq, Structural)]
pub enum MergeStrategy {
    Recursive,
    Resolve,
    Octopus,
    Ours,
    Subtree,
}

/// How a cherry-pick is made.
#[derive(Debug, Clone)]
pub struct CherryPickConfig {
    /// Parent to follow for a merge commit.
    pub mainline: Option<usize>,
    /// Stage the changes without committing them.
    pub no_commit: bool,
    pub edit_message: bool,
    /// Append a Signed-off-by line.
    pub sign_off: bool,
    pub allow_empty: bool,
    pub allow_empty_message: bool,
    pub strategy: Option<MergeStrategy>,
    pub strategy_options: Vec<String>,
}

impl Default for CherryPickConfig {
    fn default() -> (r: CherryPickConfig)
        ensures
            r.mainline is None,
            !r.no_commit && !r.edit_message && !r.sign_off,
            !r.allow_empty && !r.allow_empty_message,
            r.strategy is None,
            r.strategy_options@.len() == 0,
    {
        CherryPickConfig {
            mainline: None,
            no_commit: false,
            edit_message: false,
            sign_off: false,
            allow_empty: false,
            allow_empty_message: false,
            strategy: None,
            strategy_options: Vec::new(),
        }
    }
}

/// How a revert is made.
#[derive(Debug, Clone)]
pub struct RevertConfig {
    pub mainline: Option<usize>,
    pub no_commit: bool,
    pub edit_message: bool,
    pub sign_off: bool,
    pub strategy: Option<MergeStrategy>,
}

impl Default for RevertConfig {
    fn default() -> (r: RevertConfig)
        ensures
            r.mainline is None,
            !r.no_commit && !r.edit_message && !r.sign_off,
            r.strategy is None,
    {
        RevertConfig { mainline: None, no_commit: false, edit_message: false, sign_off: false, strategy: None }
    }
}

/// Kind of reset.
#[derive(Debug, Clone, Copy, PartialEq, Eq, Structural)]
pub enum GitResetType {
    /// Move HEAD only.
    Soft,
    /// Move HEAD and reset the index.
    Mixed,
    /// Move HEAD and reset the index and working tree.
    Hard,
    Merge,
    Keep,
}

/// How a reset is made.
#[derive(Debug, Clone)]
pub struct ResetConfig {
    pub reset_type: GitResetType,
    pub pathspecs: Vec<String>,
}

impl Default for ResetConfig {
    fn default() -> (r: ResetConfig)
        ensures
            r.reset_type == GitResetType::Mixed,
            r.pathspecs@.len() == 0,
    {
        ResetConfig { reset_type: GitResetType::Mixed, pathspecs: Vec::new() }
    }
}

/// Kind of an index conflict.
#[derive(Debug, Clone, Copy, PartialEq, Eq, Structural)]
pub enum ConflictType {
    Content,
    AddAdd,
    DeleteModify,
    ModifyDelete,
    Rename,
    Mode,
}

/// An index conflict.
#[derive(Debug, Clone)]
pub struct ConflictInfo {
    pub path: String,
    pub ancestor_id: Option<String>,
    pub our_id: Option<String>,
    pub their_id: Option<String>,
    pub conflict_type: ConflictType,
}

/// Kind of a conflict by which sides are present: added on both sides,
/// deleted on ours, deleted on theirs, or (all present) a mode or content
/// conflict.
pub open spec fn conflict_kind(c: ConflictSides) -> ConflictType {
    match (c.ancestor, c.our, c.their) {
        (None, Some(_), Some(_)) => ConflictType::AddAdd,
        (Some(_), None, Some(_)) => ConflictType::DeleteModify,
        (Some(_), Some(_), None) => ConflictType::ModifyDelete,
        (Some(_), Some(o), Some(t)) => if o.mode != t.mode {
            ConflictType::Mode
        } else {
            ConflictType::Content
        },
        _ => ConflictType::Content,
    }
}

/// Classifies a conflict.
pub fn classify_conflict_type(c: &ConflictSides) -> (r: ConflictType)
    ensures
        r == conflict_kind(*c),
{
    match (&c.ancestor, &c.our, &c.their) {
        (None, Some(_), Some(_)) => ConflictType::AddAdd,
        (Some(_), None, Some(_)) => ConflictType::DeleteModify,
        (Some(_), Some(_), None) => ConflictType::ModifyDelete,
        (Some(_), Some(o), Some(t)) => if o.mode != t.mode {
            ConflictType::Mode
        } else {
            ConflictType::Content
        },
        _ => ConflictType::Content,
    }
}

/// The path a conflict is reported under: that of its first present side
/// (ancestor, ours, theirs), or "unknown".
pub open spec fn conflict_path(c: ConflictSides) -> Seq<char> {
    let first = match c.ancestor {
        Some(e) => Some(e),
        None => match c.our {
            Some(e) => Some(e),
            None => c.their,
        },
    };
    match first {
        Some(e) => match e.path {
            Some(p) => p@,
            None => "unknown"@,
        },
        None => "unknown"@,
    }
}

fn entry_id(e: &Option<EntryFacts>) -> (r: Option<String>)
    ensures
        opt_chars(r) == match *e {
            Some(x) => Some(x.id@),
            None => None,
        },
{
    match e {
        Some(x) => Some(owned(x.id.as_str())),
        None => None,
    }
}

/// The conflicts of a listing that could be read, in order.
pub open spec fn readable_sides(items: Seq<Result<ConflictSides, git2::Error>>) -> Seq<ConflictSides>
    decreases items.len(),
{
    if items.len() == 0 {
        Seq::empty()
    } else {
        let rest = readable_sides(items.drop_last());
        match items.last() {
            Ok(c) => rest.push(c),
            Err(_) => rest,
        }
    }
}

/// The reports of the conflicts of the index that could be read, in order.
pub fn conflict_infos(items: &Vec<Result<ConflictSides, git2::Error>>) -> (r: Vec<ConflictInfo>)
    ensures
        r@.len() == readable_sides(items@).len(),
        forall|i: int| 0 <= i < r@.len() ==> {
            &&& (#[trigger] r@[i]).path@ == conflict_path(readable_sides(items@)[i])
            &&& r@[i].conflict_type == conflict_kind(readable_sides(items@)[i])
        },
{
    let mut out: Vec<ConflictInfo> = Vec::new();
    let mut i: usize = 0;
    while i < items.len()
        invariant
            i <= items.len(),
            out@.len() == readable_sides(items@.take(i as int)).len(),
            forall|k: int| 0 <= k < out@.len() ==> {
                &&& (#[trigger] out@[k]).path@ == conflict_path(readable_sides(items@.take(i as int))[k])
                &&& out@[k].conflict_type == conflict_kind(readable_sides(items@.take(i as int))[k])
            },
        decreases items.len() - i,
    {
        assert(items@.take(i as int + 1).drop_last() =~= items@.take(i as int));
        match &items[i] {
            Ok(c) => out.push(conflict_info(c)),
            Err(_) => {},
        }
        i = i + 1;
    }
    assert(items@.take(items@.len() as int) =~= items@);
    out
}

/// The conflict report of a conflict read from the index.
pub fn conflict_info(c: &ConflictSides) -> (r: ConflictInfo)
    ensures
        r.path@ == conflict_path(*c),
        r.conflict_type == conflict_kind(*c),
{
    let first = match &c.ancestor {
        Some(e) => Some(e),
        None => match &c.our {
            Some(e) => Some(e),
            None => match &c.their {
                Some(e) => Some(e),
                None => None,
            },
        },
    };
    let path = match first {
        Some(e) => match &e.path {
            Some(p) => owned(p.as_str()),
            None => owned("unknown"),
        },
        None => owned("unknown"),
    };
    ConflictInfo {
        path,
        ancestor_id: entry_id(&c.ancestor),
        our_id: entry_id(&c.our),
        their_id: entry_id(&c.their),
        conflict_type: classify_conflict_type(c),
    }
}

/// Lower-case name of a reset kind, as records show it.
pub open spec fn reset_word(t: GitResetType) -> Seq<char> {
    match t {
        GitResetType::Soft => "soft"@,
        GitResetType::Mixed => "mixed"@,
        GitResetType::Hard => "hard"@,
        GitResetType::Merge => "merge"@,
        GitResetType::Keep => "keep"@,
    }
}

/// Name of a reset kind, as results show it.
pub open spec fn reset_name(t: GitResetType) -> Seq<char> {
    match t {
        GitResetType::Soft => "Soft"@,
        GitResetType::Mixed => "Mixed"@,
        GitResetType::Hard => "Hard"@,
        GitResetType::Merge => "Merge"@,
        GitResetType::Keep => "Keep"@,
    }
}

fn reset_texts(t: GitResetType) -> (r: (&'static str, &'static str))
    ensures
        r.0@ == reset_word(t),
        r.1@ == reset_name(t),
{
    match t {
        GitResetType::Soft => ("soft", "Soft"),
        GitResetType::Mixed => ("mixed", "Mixed"),
        GitResetType::Hard => ("hard", "Hard"),
        GitResetType::Merge => ("merge", "Merge"),
        GitResetType::Keep => ("keep", "Keep"),
    }
}

/// The reset libgit2 performs for a reset kind (merge and keep resets are
/// done as mixed ones).
pub open spec fn reset_kind(t: GitResetType) -> ResetKind {
    match t {
        GitResetType::Soft => ResetKind::Soft,
        GitResetType::Hard => ResetKind::Hard,
        _ => ResetKind::Mixed,
    }
}

/// The reset libgit2 performs for a reset kind.
pub fn reset_kind_of(t: GitResetType) -> (r: ResetKind)
    ensures
        r == reset_kind(t),
{
    match t {
        GitResetType::Soft => ResetKind::Soft,
        GitResetType::Hard => ResetKind::Hard,
        _ => ResetKind::Mixed,
    }
}

/// The description of a cherry-pick or revert record: `verb` commit,
/// then the new commit or "staged".
pub open spec fn pick_description(verb: Seq<char>, c: Seq<char>, new_id: Option<Seq<char>>) -> Seq<char> {
    verb + " commit "@ + short8(c) + " -> "@ + match new_id {
        Some(n) => short8(n),
        None => "staged"@,
    }
}

/// A record of a successful cherry-pick or revert of `c`.
pub open spec fn pick_record(
    r: OperationRecord,
    op: OperationType,
    verb: Seq<char>,
    c: Seq<char>,
    new_id: Option<Seq<char>>,
    head: Option<Seq<char>>,
) -> bool {
    &&& r.operation_type == op
    &&& r.description@ == pick_description(verb, c, new_id)
    &&& opt_chars(r.original_state) == head
    &&& opt_chars(r.new_state) == new_id
    &&& string_views(r.affected_refs@) == (if new_id is Some {
        seq!["HEAD"@]
    } else {
        Seq::empty()
    })
}

/// The Signed-off-by trailer for a signature.
pub open spec fn sign_off_line(name: Option<String>, email: Option<String>) -> Seq<char> {
    "\n\nSigned-off-by: "@ + (match name {
        Some(n) => n@,
        None => "Unknown"@,
    }) + " <"@ + (match email {
        Some(e) => e@,
        None => "unknown@example.com"@,
    }) + ">"@
}

/// The message of a revert commit.
pub open spec fn revert_message(original: Option<String>, id: Seq<char>) -> Seq<char> {
    let text = match original {
        Some(m) => m@,
        None => "Unknown commit"@,
    };
    let first = if lines(text).len() > 0 {
        lines(text)[0]
    } else {
        "Unknown commit"@
    };
    "Revert \""@ + first + "\"\n\nThis reverts commit "@ + id + "."@
}

/// The message of a revert commit: `Revert "<first line>"` and the id
/// of the reverted commit.
pub fn revert_commit_message(original: &Option<String>, id: &str) -> (r: String)
    ensures
        r@ == revert_message(*original, id@),
{
    let text = match original {
        Some(m) => owned(m.as_str()),
        None => owned("Unknown commit"),
    };
    let ls = split_lines(text.as_str());
    let first = if ls.len() > 0 {
        owned(ls[0].as_str())
    } else {
        owned("Unknown commit")
    };
    let mut message = concat3("Revert \"", first.as_str(), "\"\n\nThis reverts commit ");
    append_str(&mut message, id);
    append_str(&mut message, ".");
    message
}

/// Repository commit operations, with a history of those performed.
pub struct CommitOperations {
    repo: git2::Repository,
    operation_history: Vec<OperationRecord>,
}

fn fail_result(op: OperationType, commit_id: Option<String>, message: String) -> (r: CommitOperationResult)
    ensures
        !r.success && r.operation == op && r.commit_id == commit_id && r.message == message,
        r.new_commit_id is None,
        r.conflicts@.len() == 0 && r.modified_files@.len() == 0 && r.reverted_files@.len() == 0,
{
    CommitOperationResult {
        success: false,
        operation: op,
        commit_id,
        new_commit_id: None,
        message,
        conflicts: Vec::new(),
        modified_files: Vec::new(),
        reverted_files: Vec::new(),
    }
}

/// The text of the commit a cherry-pick or revert makes: `message`,
/// followed by a sign-off line for `sig` when `sign_off` holds.
pub fn picked_message(message: String, sign_off: bool, sig: &crate::libgit::SigFacts) -> (r: String)
    ensures
        r@ == message@ + if sign_off {
            sign_off_line(sig.name, sig.email)
        } else {
            Seq::<char>::empty()
        },
{
    let mut text = message;
    if sign_off {
        join_sign_off(&mut text, sig);
    } else {
        assert(text@ + Seq::<char>::empty() =~= text@);
    }
    text
}

/// The message of a cherry-picked commit: the original commit's, else
/// "Cherry-picked commit".
pub fn cherry_pick_message(original: Option<String>) -> (r: String)
    ensures
        r@ == match original {
            Some(m) => m@,
            None => "Cherry-picked commit"@,
        },
{
    match original {
        Some(m) => m,
        None => owned("Cherry-picked commit"),
    }
}

fn join_sign_off(message: &mut String, sig: &crate::libgit::SigFacts)
    ensures
        final(message)@ == old(message)@ + sign_off_line(sig.name, sig.email),
{
    append_str(message, "\n\nSigned-off-by: ");
    match &sig.name {
        Some(n) => append_str(message, n.as_str()),
        None => append_str(message, "Unknown"),
    }
    append_str(message, " <");
    match &sig.email {
        Some(e) => append_str(message, e.as_str()),
        None => append_str(message, "unknown@example.com"),
    }
    append_str(message, ">");
}

impl CommitOperations {
    /// The operations performed, oldest first.
    pub closed spec fn history(&self) -> Seq<OperationRecord> {
        self.operation_history@
    }

    /// Operations on the repository of `git_repo`, with an empty history.
    pub fn new(git_repo: &GitRepository) -> (r: Result<CommitOperations, String>)
        ensures
            r matches Ok(m) ==> m.history().len() == 0,
    {
        match reopen(git_repo.get_repository()) {
            Ok(repo) => Ok(CommitOperations { repo, operation_history: Vec::new() }),
            Err(e) => Err(error_text(&e)),
        }
    }

    /// The operations performed, oldest first.
    pub fn get_operation_history(&self) -> (r: &[OperationRecord])
        ensures
            r@ == self.history(),
    {
        self.operation_history.as_slice()
    }

    /// The conflicts recorded in the index; entries that cannot be read are
    /// left out.
    pub fn get_conflicts(&self) -> (r: Result<Vec<ConflictInfo>, String>) {
        match index_conflicts(&self.repo) {
            Ok(items) => Ok(conflict_infos(&items)),
            Err(e) => Err(error_text(&e)),
        }
    }

    /// Paths of the files with a status (changed, staged, untracked, ...).
    pub fn get_modified_files(&self) -> (r: Result<Vec<String>, String>) {
        match status_entries(&self.repo) {
            Ok(entries) => Ok(crate::stash::status_paths(&entries)),
            Err(e) => Err(error_text(&e)),
        }
    }

    /// Paths of the files the commit `oid` changed.
    fn get_reverted_files(&self, oid: &str) -> (r: Result<Vec<String>, String>) {
        match changed_paths(&self.repo, oid) {
            Ok(v) => Ok(crate::repository::present(v)),
            Err(e) => Err(error_text(&e)),
        }
    }

    /// Whether the working tree or index has changes.
    pub fn has_uncommitted_changes(&self) -> (r: Result<bool, String>) {
        match status_entries(&self.repo) {
            Ok(v) => Ok(v.len() > 0),
            Err(e) => Err(error_text(&e)),
        }
    }

    /// The operation in progress in the repository, if any.
    pub fn get_repository_state(&self) -> RepoState {
        repo_state(&self.repo)
    }

    fn head_target(&self) -> Option<String> {
        match head_facts(&self.repo) {
            Ok(h) => h.target,
            Err(_) => None,
        }
    }

    /// Commits the index on HEAD with `message`, signed off when asked.
    fn commit_picked(&self, message: String, sign_off: bool) -> (r: Result<String, String>) {
        let sig = match repo_signature(&self.repo) {
            Ok(s) => s,
            Err(e) => {
                return Err(error_text(&e));
            },
        };
        let facts = signature_facts(&sig);
        let text = picked_message(message, sign_off, &facts);
        let parent = match head_facts(&self.repo) {
            Ok(h) => match h.target {
                Some(t) => t,
                None => {
                    return Err(owned("HEAD has no target commit"));
                },
            },
            Err(e) => {
                return Err(error_text(&e));
            },
        };
        match commit_index(&self.repo, parent.as_str(), text.as_str()) {
            Ok(id) => Ok(id),
            Err(e) => Err(error_text(&e)),
        }
    }

    fn record_pick(&mut self, op: OperationType, verb: &str, commit: &String, new_id: &Option<String>, head: Option<String>)
        ensures
            final(self).history() == appended(old(self).history(), final(self).history().last(), HISTORY_LIMIT as nat),
            pick_record(final(self).history().last(), op, verb@, commit@, opt_chars(*new_id), opt_chars(head)),
    {
        let mut description = concat(verb, " commit ");
        let short = prefix_chars(commit.as_str(), 8);
        append_str(&mut description, short.as_str());
        append_str(&mut description, " -> ");
        let mut refs: Vec<String> = Vec::new();
        let new_state = match new_id {
            Some(n) => {
                let s = prefix_chars(n.as_str(), 8);
                append_str(&mut description, s.as_str());
                refs.push(owned("HEAD"));
                Some(owned(n.as_str()))
            },
            None => {
                append_str(&mut description, "staged");
                None
            },
        };
        assert(string_views(refs@) =~= (if opt_chars(*new_id) is Some {
            seq!["HEAD"@]
        } else {
            Seq::empty()
        }));
        let record = OperationRecord {
            operation_type: op,
            timestamp: now_seconds(),
            description,
            original_state: head,
            new_state,
            affected_refs: refs,
        };
        record_capped(&mut self.operation_history, record, HISTORY_LIMIT);
    }

    /// Cherry-picks the commit `commit_id` onto HEAD and, unless there are
    /// conflicts or no commit is asked for, commits it. An invalid id, or
    /// one that names no commit, is an error; a failed cherry-pick is
    /// reported in the result. Only a success is recorded.
    pub fn cherry_pick(&mut self, commit_id: &str, config: CherryPickConfig) -> (r: Result<CommitOperationResult, String>)
        ensures
            checked_commit_id(commit_id@) matches Err(m) ==> r is Err && r->Err_0@ == m,
            r is Err ==> final(self).history() == old(self).history(),
            checked_commit_id(commit_id@) matches Ok(c) ==> (r matches Ok(x) ==> {
                &&& x.operation == OperationType::CommitCherryPick
                &&& opt_chars(x.commit_id) == Some(c)
                &&& x.reverted_files@.len() == 0
                &&& x.new_commit_id is Some ==> !config.no_commit && x.conflicts@.len() == 0
                &&& if x.success {
                    &&& x.message@ == "Cherry-pick successful"@
                    &&& (!config.no_commit && x.conflicts@.len() == 0 ==> x.new_commit_id is Some)
                    &&& final(self).history() == appended(old(self).history(), final(self).history().last(), HISTORY_LIMIT as nat)
                    &&& exists|h: Option<Seq<char>>| pick_record(final(self).history().last(), OperationType::CommitCherryPick, "Cherry-picked"@, c, opt_chars(x.new_commit_id), h)
                } else {
                    &&& final(self).history() == old(self).history()
                    &&& x.new_commit_id is None
                    &&& (starts_with(x.message@, "Cherry-pick failed: "@) || starts_with(x.message@, "Failed to create commit: "@))
                }
            }),
    {
        let commit = match check_commit_id(commit_id) {
            Ok(c) => c,
            Err(m) => {
                return Err(m);
            },
        };
        let head = self.head_target();
        let oid = match parse_oid(commit.as_str()) {
            Ok(o) => o,
            Err(e) => {
                return Err(concat("Invalid commit OID: ", error_text(&e).as_str()));
            },
        };
        let original = match commit_facts(&self.repo, oid.as_str()) {
            Ok(f) => f,
            Err(e) => {
                return Err(concat("Commit not found: ", error_text(&e).as_str()));
            },
        };
        match cherrypick(&self.repo, oid.as_str()) {
            Err(e) => {
                let m = concat("Cherry-pick failed: ", error_text(&e).as_str());
                Ok(fail_result(OperationType::CommitCherryPick, Some(commit), m))
            },
            Ok(()) => {
                let conflicts = match self.get_conflicts() {
                    Ok(c) => c,
                    Err(e) => {
                        return Err(e);
                    },
                };
                let modified = match self.get_modified_files() {
                    Ok(m) => m,
                    Err(e) => {
                        return Err(e);
                    },
                };
                let paths = conflict_paths(conflicts);
                let mut new_id: Option<String> = None;
                if paths.len() == 0 && !config.no_commit {
                    let message = cherry_pick_message(original.message);
                    match self.commit_picked(message, config.sign_off) {
                        Ok(id) => {
                            new_id = Some(id);
                        },
                        Err(e) => {
                            return Ok(CommitOperationResult {
                                success: false,
                                operation: OperationType::CommitCherryPick,
                                commit_id: Some(commit),
                                new_commit_id: None,
                                message: concat("Failed to create commit: ", e.as_str()),
                                conflicts: paths,
                                modified_files: modified,
                                reverted_files: Vec::new(),
                            });
                        },
                    }
                }
                self.record_pick(OperationType::CommitCherryPick, "Cherry-picked", &commit, &new_id, head);
                Ok(CommitOperationResult {
                    success: true,
                    operation: OperationType::CommitCherryPick,
                    commit_id: Some(commit),
                    new_commit_id: new_id,
                    message: owned("Cherry-pick successful"),
                    conflicts: paths,
                    modified_files: modified,
                    reverted_files: Vec::new(),
                })
            },
        }
    }

    /// Reverts the commit `commit_id` on HEAD and, unless there are
    /// conflicts or no commit is asked for, commits the revert. Failures are
    /// reported in the result; listing conflicts or files that fails is an
    /// error. Only a success is recorded.
    pub fn revert(&mut self, commit_id: &str, config: RevertConfig) -> (r: Result<CommitOperationResult, String>)
        ensures
            r is Err ==> final(self).history() == old(self).history(),
            checked_commit_id(commit_id@) matches Err(m) ==> r matches Ok(x) && !x.success
                && x.message@ == m && x.commit_id is None && x.operation == OperationType::CommitRevert
                && final(self).history() == old(self).history(),
            checked_commit_id(commit_id@) matches Ok(c) ==> (r matches Ok(x) ==> {
                &&& x.operation == OperationType::CommitRevert
                &&& opt_chars(x.commit_id) == Some(c)
                &&& x.new_commit_id is Some ==> !config.no_commit && x.conflicts@.len() == 0
                &&& if x.success {
                    &&& x.message@ == "Revert successful"@
                    &&& (!config.no_commit && x.conflicts@.len() == 0 ==> x.new_commit_id is Some)
                    &&& final(self).history() == appended(old(self).history(), final(self).history().last(), HISTORY_LIMIT as nat)
                    &&& exists|h: Option<Seq<char>>| pick_record(final(self).history().last(), OperationType::CommitRevert, "Reverted"@, c, opt_chars(x.new_commit_id), h)
                } else {
                    &&& final(self).history() == old(self).history()
                    &&& x.new_commit_id is None
                    &&& (starts_with(x.message@, "Invalid commit OID: "@) || starts_with(x.message@, "Commit not found: "@)
                        || starts_with(x.message@, "Revert failed: "@) || starts_with(x.message@, "Failed to create commit: "@))
                }
            }),
    {
        let commit = match check_commit_id(commit_id) {
            Ok(c) => c,
            Err(m) => {
                return Ok(fail_result(OperationType::CommitRevert, None, m));
            },
        };
        let head = self.head_target();
        let oid = match parse_oid(commit.as_str()) {
            Ok(o) => o,
            Err(e) => {
                let m = concat("Invalid commit OID: ", error_text(&e).as_str());
                return Ok(fail_result(OperationType::CommitRevert, Some(commit), m));
            },
        };
        let original = match commit_facts(&self.repo, oid.as_str()) {
            Ok(f) => f,
            Err(e) => {
                let m = concat("Commit not found: ", error_text(&e).as_str());
                return Ok(fail_result(OperationType::CommitRevert, Some(commit), m));
            },
        };
        match revert(&self.repo, oid.as_str()) {
            Err(e) => {
                let m = concat("Revert failed: ", error_text(&e).as_str());
                Ok(fail_result(OperationType::CommitRevert, Some(commit), m))
            },
            Ok(()) => {
                let conflicts = match self.get_conflicts() {
                    Ok(c) => c,
                    Err(e) => {
                        return Err(e);
                    },
                };
                let modified = match self.get_modified_files() {
                    Ok(m) => m,
                    Err(e) => {
                        return Err(e);
                    },
                };
                let reverted = match self.get_reverted_files(oid.as_str()) {
                    Ok(v) => v,
                    Err(e) => {
                        return Err(e);
                    },
                };
                let paths = conflict_paths(conflicts);
                let mut new_id: Option<String> = None;
                if paths.len() == 0 && !config.no_commit {
                    let message = revert_commit_message(&original.message, original.id.as_str());
                    match self.commit_picked(message, config.sign_off) {
                        Ok(id) => {
                            new_id = Some(id);
                        },
                        Err(e) => {
                            return Ok(CommitOperationResult {
                                success: false,
                                operation: OperationType::CommitRevert,
                                commit_id: Some(commit),
                                new_commit_id: None,
                                message: concat("Failed to create commit: ", e.as_str()),
                                conflicts: paths,
                                modified_files: modified,
                                reverted_files: reverted,
                            });
                        },
                    }
                }
                self.record_pick(OperationType::CommitRevert, "Reverted", &commit, &new_id, head);
                Ok(CommitOperationResult {
                    success: true,
                    operation: OperationType::CommitRevert,
                    commit_id: Some(commit),
                    new_commit_id: new_id,
                    message: owned("Revert successful"),
                    conflicts: paths,
                    modified_files: modified,
                    reverted_files: reverted,
                })
            },
        }
    }

    /// Resets HEAD to the commit `commit_id` (merge and keep resets are
    /// done as mixed ones). Failures are reported in the result; listing
    /// the changed files afterwards may fail with an error. Only a success
    /// is recorded.
    pub fn reset(&mut self, commit_id: &str, config: ResetConfig) -> (r: Result<CommitOperationResult, String>)
        ensures
            r is Err ==> final(self).history() == old(self).history(),
            checked_commit_id(commit_id@) matches Err(m) ==> r matches Ok(x) && !x.success
                && x.message@ == m && x.commit_id is None && x.operation == OperationType::CommitReset
                && final(self).history() == old(self).history(),
            checked_commit_id(commit_id@) matches Ok(c) ==> (r matches Ok(x) ==> {
                &&& x.operation == OperationType::CommitReset
                &&& opt_chars(x.commit_id) == Some(c)
                &&& x.conflicts@.len() == 0 && x.reverted_files@.len() == 0
                &&& if x.success {
                    &&& x.message@ == "Reset successful ("@ + reset_name(config.reset_type) + ")"@
                    &&& opt_chars(x.new_commit_id) == Some(oid_text(c))
                    &&& final(self).history() == appended(old(self).history(), final(self).history().last(), HISTORY_LIMIT as nat)
                    &&& final(self).history().last().operation_type == OperationType::CommitReset
                    &&& final(self).history().last().description@ == "Reset to commit "@ + short8(c) + " ("@ + reset_word(config.reset_type) + ")"@
                    &&& opt_chars(final(self).history().last().new_state) == Some(oid_text(c))
                    &&& string_views(final(self).history().last().affected_refs@) == seq!["HEAD"@]
                } else {
                    &&& final(self).history() == old(self).history()
                    &&& x.new_commit_id is None
                    &&& (starts_with(x.message@, "Invalid commit OID: "@) || starts_with(x.message@, "Commit not found: "@)
                        || starts_with(x.message@, "Reset failed: "@))
                }
            }),
    {
        let commit = match check_commit_id(commit_id) {
            Ok(c) => c,
            Err(m) => {
                return Ok(fail_result(OperationType::CommitReset, None, m));
            },
        };
        let head = self.head_target();
        let oid = match parse_oid(commit.as_str()) {
            Ok(o) => o,
            Err(e) => {
                let m = concat("Invalid commit OID: ", error_text(&e).as_str());
                return Ok(fail_result(OperationType::CommitReset, Some(commit), m));
            },
        };
        match commit_facts(&self.repo, oid.as_str()) {
            Ok(_) => {},
            Err(e) => {
                let m = concat("Commit not found: ", error_text(&e).as_str());
                return Ok(fail_result(OperationType::CommitReset, Some(commit), m));
            },
        }
        let kind = reset_kind_of(config.reset_type);
        match reset(&self.repo, oid.as_str(), kind) {
            Err(e) => {
                let m = concat("Reset failed: ", error_text(&e).as_str());
                Ok(fail_result(OperationType::CommitReset, Some(commit), m))
            },
            Ok(()) => {
                let modified = match self.get_modified_files() {
                    Ok(m) => m,
                    Err(e) => {
                        return Err(e);
                    },
                };
                let (word, name) = reset_texts(config.reset_type);
                let mut description = concat("Reset to commit ", prefix_chars(commit.as_str(), 8).as_str());
                append_str(&mut description, " (");
                append_str(&mut description, word);
                append_str(&mut description, ")");
                let mut refs: Vec<String> = Vec::new();
                refs.push(owned("HEAD"));
                assert(string_views(refs@) =~= seq!["HEAD"@]);
                let record = OperationRecord {
                    operation_type: OperationType::CommitReset,
                    timestamp: now_seconds(),
                    description,
                    original_state: head,
                    new_state: Some(owned(oid.as_str())),
                    affected_refs: refs,
                };
                record_capped(&mut self.operation_history, record, HISTORY_LIMIT);
                Ok(CommitOperationResult {
                    success: true,
                    operation: OperationType::CommitReset,
                    commit_id: Some(commit),
                    new_commit_id: Some(oid),
                    message: concat3("Reset successful (", name, ")"),
                    conflicts: Vec::new(),
                    modified_files: modified,
                    reverted_files: Vec::new(),
                })
            },
        }
    }

    /// Aborts a cherry-pick or revert sequence in progress by a hard reset
    /// to HEAD; with no such sequence in progress, reports that there is
    /// nothing to abort. Nothing is recorded.
    pub fn abort_operation(&mut self) -> (r: Result<CommitOperationResult, String>)
        ensures
            final(self).history() == old(self).history(),
            r matches Ok(x) ==> (x.success ==> x.message@ == "Cherry-pick aborted"@ || x.message@ == "Revert aborted"@),
            r matches Ok(x) ==> {
                &&& x.commit_id is None
                &&& x.new_commit_id is None
                &&& if x.success {
                    ||| x.operation == OperationType::CommitCherryPick && x.message@ == "Cherry-pick aborted"@
                    ||| x.operation == OperationType::CommitRevert && x.message@ == "Revert aborted"@
                } else {
                    ||| x.operation == OperationType::CommitReset && x.message@ == "No operation to abort"@
                    ||| x.operation == OperationType::CommitCherryPick && starts_with(x.message@, "Failed to abort cherry-pick: "@)
                    ||| x.operation == OperationType::CommitRevert && starts_with(x.message@, "Failed to abort revert: "@)
                }
            },
    {
        let state = repo_state(&self.repo);
        let (op, done, failed) = match state {
            RepoState::CherryPickSequence => (OperationType::CommitCherryPick, "Cherry-pick aborted", "Failed to abort cherry-pick: "),
            RepoState::RevertSequence => (OperationType::CommitRevert, "Revert aborted", "Failed to abort revert: "),
            _ => {
                return Ok(fail_result(OperationType::CommitReset, None, owned("No operation to abort")));
            },
        };
        let target = match head_facts(&self.repo) {
            Ok(h) => match h.target {
                Some(t) => t,
                None => {
                    return Err(owned("HEAD has no target commit"));
                },
            },
            Err(e) => {
                return Err(error_text(&e));
            },
        };
        match commit_facts(&self.repo, target.as_str()) {
            Ok(_) => {},
            Err(e) => {
                return Err(error_text(&e));
            },
        }
        match reset(&self.repo, target.as_str(), ResetKind::Hard) {
            Ok(()) => Ok(CommitOperationResult {
                success: true,
                operation: op,
                commit_id: None,
                new_commit_id: None,
                message: owned(done),
                conflicts: Vec::new(),
                modified_files: Vec::new(),
                reverted_files: Vec::new(),
            }),
            Err(e) => Ok(fail_result(op, None, concat(failed, error_text(&e).as_str()))),
        }
    }
}

/// The paths of conflicts, in order.
pub fn conflict_paths(conflicts: Vec<ConflictInfo>) -> (r: Vec<String>)
    ensures
        r@.len() == conflicts@.len(),
        forall|i: int| 0 <= i < r@.len() ==> #[trigger] r@[i] == conflicts@[i].path,
{
    let ghost all = conflicts@;
    let mut rest = conflicts;
    let mut out: Vec<String> = Vec::new();
    let n: usize = rest.len();
    let mut i: usize = 0;
    while rest.len() > 0
        invariant
            n == all.len(),
            i + rest@.len() == all.len(),
            rest@ == all.skip(i as int),
            out@.len() == i,
            forall|j: int| 0 <= j < i ==> #[trigger] out@[j] == all[j].path,
        decreases rest.len(),
    {
        let c = rest.remove(0);
        out.push(c.path);
        i = i + 1;
        assert(rest@ =~= all.skip(i as int));
    }
    out
}

} // verus!
