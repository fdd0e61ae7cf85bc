//! Stash management: saving, applying, popping, dropping and listing
//! stashes.

use vstd::prelude::*;
use crate::commits::ConflictInfo;
use crate::errors::{commit_message_problem, InputValidator};
use crate::libgit::{
    head_facts, index_conflicts, commit_facts, repo_signature, reopen, revparse_commit,
    signature_now, stash_apply, stash_drop, stash_save, status_entries, ConflictSides,
    FileStatus, StashOptionSet,
};
use crate::operations::{
    appended, now_seconds, record_capped, OperationRecord, OperationType, HISTORY_LIMIT,
};
use crate::repository::{error_text, GitRepository};
use crate::security::{cut_is_on_boundary, sanitized_commit_text, InputSanitizer};
use crate::text::{
    append_str, concat, concat3, decimal, owned, remove_chars, starts_with, str_contains,
    str_starts_with, usize_to_string, contains_seq, chars_of, string_of,
};
use crate::views::{opt_chars, string_views};

verus! {

/// Outcome of a stash operation.
#[derive(Debug)]
pub struct StashOperationResult {
    pub success: bool,
    pub operation: OperationType,
    pub stash_index: Option<usize>,
    pub stash_id: Option<String>,
    pub message: String,
    pub conflicts: Vec<String>,
    pub modified_files: Vec<String>,
    pub stash_info: Option<StashInfo>,
}

/// Author of a stash.
#[derive(Debug, Clone)]
pub struct StashAuthor {
    pub name: String,
    pub email: String,
}

/// What is known of a stash.
#[derive(Debug, Clone)]
pub struct StashInfo {
    pub index: usize,
    pub id: String,
    pub message: String,
    pub author: StashAuthor,
    /// Seconds since the Unix epoch.
    pub created_date: i64,
    pub branch_name: Option<String>,
    pub has_untracked: bool,
    pub has_ignored: bool,
    pub file_count: usize,
    pub description: String,
}

/// How a stash is saved.
#[derive(Debug, Clone)]
pub struct StashCreateConfig {
    pub message: Option<String>,
    /// Keep staged changes in the index.
    pub keep_index: bool,
    pub include_untracked: bool,
    pub include_ignored: bool,
    /// Untracked and ignored files both.
    pub all_files: bool,
    pub pathspecs: Vec<String>,
}

impl Default for StashCreateConfig {
    fn default() -> (r: StashCreateConfig)
        ensures
            r.message is None,
            !r.keep_index && !r.include_untracked && !r.include_ignored && !r.all_files,
            r.pathspecs@.len() == 0,
    {
        StashCreateConfig {
            message: None,
            keep_index: false,
            include_untracked: false,
            include_ignored: false,
            all_files: false,
            pathspecs: Vec::new(),
        }
    }
}

/// How conflicts of an applied stash are resolved.
#[derive(Debug, Clone, Copy, PartialEq, Eq, Structural)]
pub enum StashApplyStrategy {
    Normal,
    Ours,
    Theirs,
    IgnoreSpace,
}

/// How a stash is applied.
#[derive(Debug, Clone)]
pub struct StashApplyConfig {
    pub check_conflicts: bool,
    /// Restore the staged changes to the index.
    pub reinstate_index: bool,
    pub ignore_whitespace: bool,
    pub strategy: StashApplyStrategy,
}

impl Default for StashApplyConfig {
    fn default() -> (r: StashApplyConfig)
        ensures
            r.check_conflicts && !r.reinstate_index && !r.ignore_whitespace,
            r.strategy == StashApplyStrategy::Normal,
    {
        StashApplyConfig {
            check_conflicts: true,
            reinstate_index: false,
            ignore_whitespace: false,
            strategy: StashApplyStrategy::Normal,
        }
    }
}

/// Which stashes are listed.
#[derive(Debug, Clone)]
pub struct StashListOptions {
    pub limit: Option<usize>,
    pub include_stats: bool,
    pub branch_filter: Option<String>,
    pub author_filter: Option<String>,
    pub message_pattern: Option<String>,
    /// Earliest creation time, in seconds since the epoch.
    pub date_from: Option<i64>,
    /// Latest creation time, in seconds since the epoch.
    pub date_to: Option<i64>,
}

impl Default for StashListOptions {
    fn default() -> (r: StashListOptions)
        ensures
            r.limit is None && !r.include_stats,
            r.branch_filter is None && r.author_filter is None && r.message_pattern is None,
            r.date_from is None && r.date_to is None,
    {
        StashListOptions {
            limit: None,
            include_stats: false,
            branch_filter: None,
            author_filter: None,
            message_pattern: None,
            date_from: None,
            date_to: None,
        }
    }
}

/// A conflict of an applied stash.
#[derive(Debug, Clone)]
pub struct StashConflict {
    pub path: String,
    pub conflict_type: StashConflictType,
    pub our_content: Option<String>,
    pub their_content: Option<String>,
    pub base_content: Option<String>,
}

/// Kind of a stash conflict.
#[derive(Debug, Clone, Copy, PartialEq, Eq, Structural)]
pub enum StashConflictType {
    Content,
    FileMode,
    DeleteModify,
    AddAdd,
    Rename,
}

/// Kind of a stash conflict by which sides are present.
pub open spec fn stash_conflict_kind(c: ConflictSides) -> StashConflictType {
    match (c.ancestor, c.our, c.their) {
        (None, Some(_), Some(_)) => StashConflictType::AddAdd,
        (Some(_), None, Some(_)) => StashConflictType::DeleteModify,
        (Some(_), Some(o), Some(t)) => if o.mode != t.mode {
            StashConflictType::FileMode
        } else {
            StashConflictType::Content
        },
        _ => StashConflictType::Content,
    }
}

/// Classifies a stash conflict.
pub fn classify_stash_conflict_type(c: &ConflictSides) -> (r: StashConflictType)
    ensures
        r == stash_conflict_kind(*c),
{
    match (&c.ancestor, &c.our, &c.their) {
        (None, Some(_), Some(_)) => StashConflictType::AddAdd,
        (Some(_), None, Some(_)) => StashConflictType::DeleteModify,
        (Some(_), Some(o), Some(t)) => if o.mode != t.mode {
            StashConflictType::FileMode
        } else {
            StashConflictType::Content
        },
        _ => StashConflictType::Content,
    }
}

/// Whether a file status counts as a change a stash saves: a tracked file
/// modified, deleted or renamed (staged or not); an untracked file when
/// untracked or all files are included; an ignored file when ignored or
/// all files are included.
pub open spec fn stashable(s: FileStatus, config: StashCreateConfig) -> bool {
    ||| s.wt_modified || s.index_modified || s.wt_deleted || s.index_deleted || s.wt_renamed || s.index_renamed
    ||| ((config.include_untracked || config.all_files) && s.wt_new)
    ||| ((config.include_ignored || config.all_files) && s.ignored)
}

fn is_stashable(s: &FileStatus, config: &StashCreateConfig) -> (r: bool)
    ensures
        r == stashable(*s, *config),
{
    s.wt_modified || s.index_modified || s.wt_deleted || s.index_deleted || s.wt_renamed || s.index_renamed
        || ((config.include_untracked || config.all_files) && s.wt_new)
        || ((config.include_ignored || config.all_files) && s.ignored)
}

/// Whether some entry of a status list is a change a stash with `config`
/// saves.
pub open spec fn has_stashable(entries: Seq<FileStatus>, config: StashCreateConfig) -> bool {
    exists|i: int| 0 <= i < entries.len() && stashable(#[trigger] entries[i], config)
}

/// The paths, in order, of the entries of a status list that `keep` holds
/// of (entries without a path are left out).
pub open spec fn kept_paths(entries: Seq<FileStatus>, keep: spec_fn(FileStatus) -> bool) -> Seq<Seq<char>>
    decreases entries.len(),
{
    if entries.len() == 0 {
        Seq::empty()
    } else {
        let rest = kept_paths(entries.drop_last(), keep);
        match entries.last().path {
            Some(p) => if keep(entries.last()) {
                rest.push(p@)
            } else {
                rest
            },
            None => rest,
        }
    }
}

/// Entries a stash with `config` saves.
pub open spec fn stash_keeps(config: StashCreateConfig) -> spec_fn(FileStatus) -> bool {
    |s: FileStatus| stashable(s, config)
}

/// Every entry.
pub open spec fn any_status() -> spec_fn(FileStatus) -> bool {
    |s: FileStatus| true
}

/// Whether some entry of `entries` is a change a stash with `config` saves.
pub fn any_stashable(entries: &Vec<FileStatus>, config: &StashCreateConfig) -> (r: bool)
    ensures
        r == has_stashable(entries@, *config),
{
    let mut i: usize = 0;
    while i < entries.len()
        invariant
            i <= entries.len(),
            forall|j: int| 0 <= j < i ==> !stashable(#[trigger] entries@[j], *config),
        decreases entries.len() - i,
    {
        if is_stashable(&entries[i], config) {
            return true;
        }
        i = i + 1;
    }
    false
}

/// The paths of the entries of `entries` that a stash with `config` saves,
/// in order.
pub fn stashable_paths(entries: &Vec<FileStatus>, config: &StashCreateConfig) -> (r: Vec<String>)
    ensures
        string_views(r@) == kept_paths(entries@, stash_keeps(*config)),
{
    let mut out: Vec<String> = Vec::new();
    let mut i: usize = 0;
    while i < entries.len()
        invariant
            i <= entries.len(),
            string_views(out@) == kept_paths(entries@.take(i as int), stash_keeps(*config)),
        decreases entries.len() - i,
    {
        assert(entries@.take(i as int + 1).drop_last() =~= entries@.take(i as int));
        let ghost before = out@;
        match &entries[i].path {
            Some(p) => {
                if is_stashable(&entries[i], config) {
                    out.push(owned(p.as_str()));
                    assert(string_views(out@) =~= string_views(before).push(p@));
                }
            },
            None => {},
        }
        i = i + 1;
    }
    assert(entries@.take(entries@.len() as int) =~= entries@);
    out
}

/// The paths of all the entries of `entries` that have one, in order.
pub fn status_paths(entries: &Vec<FileStatus>) -> (r: Vec<String>)
    ensures
        string_views(r@) == kept_paths(entries@, any_status()),
{
    let mut out: Vec<String> = Vec::new();
    let mut i: usize = 0;
    while i < entries.len()
        invariant
            i <= entries.len(),
            string_views(out@) == kept_paths(entries@.take(i as int), any_status()),
        decreases entries.len() - i,
    {
        assert(entries@.take(i as int + 1).drop_last() =~= entries@.take(i as int));
        let ghost before = out@;
        match &entries[i].path {
            Some(p) => {
                out.push(owned(p.as_str()));
                assert(string_views(out@) =~= string_views(before).push(p@));
            },
            None => {},
        }
        i = i + 1;
    }
    assert(entries@.take(entries@.len() as int) =~= entries@);
    out
}

/// The branch a stash message of the form "WIP on <branch>: ..." names.
pub open spec fn branch_of_message(m: Seq<char>) -> Option<Seq<char>> {
    if starts_with(m, "WIP on "@) {
        let cut = if exists|k: int| 0 <= k < m.len() && m[k] == ':' {
            choose|k: int| 0 <= k < m.len() && m[k] == ':' && forall|j: int| 0 <= j < k ==> m[j] != ':'
        } else {
            m.len() as int
        };
        let b = m.subrange(7, cut);
        if b.len() > 0 {
            Some(b)
        } else {
            None
        }
    } else {
        None
    }
}

/// The branch a stash message names (see [`branch_of_message`]).
pub fn extract_branch_from_message(message: &str) -> (r: Option<String>)
    ensures
        opt_chars(r) == branch_of_message(message@),
{
    if !str_starts_with(message, "WIP on ") {
        return None;
    }
    let v = chars_of(message);
    let mut cut: usize = 0;
    while cut < v.len() && v[cut] != ':'
        invariant
            cut <= v.len(),
            v@ == message@,
            forall|j: int| 0 <= j < cut ==> v@[j] != ':',
        decreases v.len() - cut,
    {
        cut = cut + 1;
    }
    proof {
        let m = message@;
        reveal_strlit("WIP on ");
        assert(m.subrange(0, 7) == "WIP on "@);
        assert forall|j: int| 0 <= j < 7 implies m[j] != ':' by {
            assert(m[j] == "WIP on "@[j]);
        }
        if cut < v.len() {
            let k = choose|k: int| 0 <= k < m.len() && m[k] == ':' && forall|j: int| 0 <= j < k ==> m[j] != ':';
            assert(k == cut) by {
                if k < cut {
                } else if k > cut {
                }
            }
        }
    }
    let mut b: Vec<char> = Vec::new();
    let mut i: usize = 7;
    while i < cut
        invariant
            7 <= i <= cut,
            cut <= v.len(),
            b@ == v@.subrange(7, i as int),
        decreases cut - i,
    {
        b.push(v[i]);
        i = i + 1;
        assert(b@ =~= v@.subrange(7, i as int));
    }
    if cut < 7 || b.len() == 0 {
        None
    } else {
        Some(string_of(&b))
    }
}

/// Whether a stash passes the list filters.
pub open spec fn stash_matches(s: StashInfo, o: StashListOptions) -> bool {
    &&& (match o.branch_filter {
        Some(f) => match s.branch_name {
            Some(b) => contains_seq(b@, f@),
            None => false,
        },
        None => true,
    })
    &&& (match o.author_filter {
        Some(f) => contains_seq(s.author.name@, f@) || contains_seq(s.author.email@, f@),
        None => true,
    })
    &&& (match o.message_pattern {
        Some(p) => contains_seq(s.message@, p@),
        None => true,
    })
    &&& (match o.date_from {
        Some(d) => s.created_date >= d,
        None => true,
    })
    &&& (match o.date_to {
        Some(d) => s.created_date <= d,
        None => true,
    })
}

/// Whether a stash passes the list filters.
pub fn matches_filters(s: &StashInfo, o: &StashListOptions) -> (r: bool)
    ensures
        r == stash_matches(*s, *o),
{
    match &o.branch_filter {
        Some(f) => match &s.branch_name {
            Some(b) => {
                if !str_contains(b.as_str(), f.as_str()) {
                    return false;
                }
            },
            None => {
                return false;
            },
        },
        None => {},
    }
    match &o.author_filter {
        Some(f) => {
            if !str_contains(s.author.name.as_str(), f.as_str()) && !str_contains(s.author.email.as_str(), f.as_str()) {
                return false;
            }
        },
        None => {},
    }
    match &o.message_pattern {
        Some(p) => {
            if !str_contains(s.message.as_str(), p.as_str()) {
                return false;
            }
        },
        None => {},
    }
    match o.date_from {
        Some(d) => {
            if s.created_date < d {
                return false;
            }
        },
        None => {},
    }
    match o.date_to {
        Some(d) => {
            if s.created_date > d {
                return false;
            }
        },
        None => {},
    }
    true
}

/// The message of an out-of-range index: "Stash index i out of range (0-m)"
/// with m the last valid index (0 when there is none).
pub open spec fn out_of_range_message(index: usize, count: usize) -> Seq<char> {
    "Stash index "@ + decimal(index as nat) + " out of range (0-"@ + decimal(
        (if count > 0 { count - 1 } else { 0 }) as nat,
    ) + ")"@
}

fn out_of_range(index: usize, count: usize) -> (r: String)
    ensures
        r@ == out_of_range_message(index, count),
{
    let last: usize = if count > 0 {
        count - 1
    } else {
        0
    };
    let mut m = concat("Stash index ", usize_to_string(index).as_str());
    append_str(&mut m, " out of range (0-");
    append_str(&mut m, usize_to_string(last).as_str());
    append_str(&mut m, ")");
    m
}

/// A stash result that reports a failure.
fn stash_failure(op: OperationType, index: Option<usize>, id: Option<String>, message: String, info: Option<StashInfo>) -> (r: StashOperationResult)
    ensures
        !r.success && r.operation == op && r.stash_index == index && r.stash_id == id && r.message == message
            && r.stash_info == info && r.conflicts@.len() == 0 && r.modified_files@.len() == 0,
{
    StashOperationResult {
        success: false,
        operation: op,
        stash_index: index,
        stash_id: id,
        message,
        conflicts: Vec::new(),
        modified_files: Vec::new(),
        stash_info: info,
    }
}

fn one_ref(name: &str) -> (r: Vec<String>)
    ensures
        string_views(r@) == seq![name@],
{
    let mut v: Vec<String> = Vec::new();
    v.push(owned(name));
    assert(string_views(v@) =~= seq![name@]);
    v
}

/// Stashes of a repository, with a history of the stash operations
/// performed.
pub struct StashManager {
    repo: git2::Repository,
    operation_history: Vec<OperationRecord>,
}

impl StashManager {
    /// The operations performed, oldest first.
    pub closed spec fn history(&self) -> Seq<OperationRecord> {
        self.operation_history@
    }

    /// A manager on the repository of `git_repo`, with an empty history.
    pub fn new(git_repo: &GitRepository) -> (r: Result<StashManager, String>)
        ensures
            r matches Ok(m) ==> m.history().len() == 0,
    {
        match reopen(git_repo.get_repository()) {
            Ok(repo) => Ok(StashManager { repo, operation_history: Vec::new() }),
            Err(e) => Err(error_text(&e)),
        }
    }

    /// The operations performed, oldest first.
    pub fn get_operation_history(&self) -> (r: &[OperationRecord])
        ensures
            r@ == self.history(),
    {
        self.operation_history.as_slice()
    }

    fn record(&mut self, op: OperationType, description: String, original: Option<String>, new_state: Option<String>, refs: Vec<String>)
        ensures
            final(self).history() == appended(old(self).history(), final(self).history().last(), HISTORY_LIMIT as nat),
            final(self).history().last().operation_type == op,
            final(self).history().last().description == description,
            final(self).history().last().original_state == original,
            final(self).history().last().new_state == new_state,
            final(self).history().last().affected_refs == refs,
    {
        let record = OperationRecord {
            operation_type: op,
            timestamp: now_seconds(),
            description,
            original_state: original,
            new_state,
            affected_refs: refs,
        };
        record_capped(&mut self.operation_history, record, HISTORY_LIMIT);
    }

    /// The number of stashes: how many of `stash@{0}`, `stash@{1}`, ...
    /// resolve before the first that does not.
    pub fn get_stash_count(&self) -> (r: usize) {
        let mut count: usize = 0;
        while count < usize::MAX
            invariant
                count <= usize::MAX,
            decreases usize::MAX - count,
        {
            let spec_text = stash_ref(count);
            if revparse_commit(&self.repo, spec_text.as_str()).is_err() {
                return count;
            }
            count = count + 1;
        }
        count
    }

    fn status(&self) -> Result<Vec<FileStatus>, String> {
        match status_entries(&self.repo) {
            Ok(v) => Ok(v),
            Err(e) => Err(error_text(&e)),
        }
    }

    /// Whether there are changes a stash with `config` would save.
    pub fn has_changes_to_stash(&self, config: &StashCreateConfig) -> (r: Result<bool, String>) {
        let entries = match self.status() {
            Ok(v) => v,
            Err(e) => {
                return Err(e);
            },
        };
        Ok(any_stashable(&entries, config))
    }

    /// Paths of the files a stash with `config` would save.
    pub fn get_files_to_stash(&self, config: &StashCreateConfig) -> (r: Result<Vec<String>, String>) {
        let entries = match self.status() {
            Ok(v) => v,
            Err(e) => {
                return Err(e);
            },
        };
        Ok(stashable_paths(&entries, config))
    }

    /// Paths of the files with a status.
    pub fn get_modified_files(&self) -> (r: Result<Vec<String>, String>) {
        let entries = match self.status() {
            Ok(v) => v,
            Err(e) => {
                return Err(e);
            },
        };
        Ok(status_paths(&entries))
    }

    /// The conflicts in the index after applying a stash.
    pub fn get_current_conflicts(&self) -> (r: Result<Vec<StashConflict>, String>) {
        let items = match index_conflicts(&self.repo) {
            Ok(v) => v,
            Err(e) => {
                return Err(error_text(&e));
            },
        };
        let mut out: Vec<StashConflict> = Vec::new();
        let mut i: usize = 0;
        while i < items.len()
            invariant
                i <= items.len(),
            decreases items.len() - i,
        {
            match &items[i] {
                Ok(c) => {
                    let info: ConflictInfo = crate::commits::conflict_info(c);
                    out.push(StashConflict {
                        path: info.path,
                        conflict_type: classify_stash_conflict_type(c),
                        our_content: None,
                        their_content: None,
                        base_content: None,
                    });
                },
                Err(_) => {},
            }
            i = i + 1;
        }
        Ok(out)
    }

    /// What is known of the stash at `index`.
    pub fn get_stash_info_by_index(&self, index: usize) -> (r: Result<StashInfo, String>)
        ensures
            r matches Ok(s) ==> s.index == index && s.description@ == "Stash@{"@ + decimal(index as nat) + "}: "@ + s.message@
                && opt_chars(s.branch_name) == branch_of_message(s.message@) && s.file_count == 0
                && !s.has_untracked && !s.has_ignored,
            r matches Ok(s) ==> stash_described(s),
    {
        let spec_text = stash_ref(index);
        let facts = match revparse_commit(&self.repo, spec_text.as_str()) {
            Ok(Some(f)) => f,
            Ok(None) => {
                return Err(owned("Stash is not a commit"));
            },
            Err(e) => {
                return Err(error_text(&e));
            },
        };
        let name = match facts.author.name {
            Some(n) => n,
            None => owned("Unknown"),
        };
        let email = match facts.author.email {
            Some(e) => e,
            None => owned("unknown@example.com"),
        };
        let message = match facts.message {
            Some(m) => m,
            None => owned("No message"),
        };
        let branch_name = extract_branch_from_message(message.as_str());
        let mut description = concat3("Stash@{", usize_to_string(index).as_str(), "}: ");
        append_str(&mut description, message.as_str());
        Ok(StashInfo {
            index,
            id: facts.id,
            message,
            author: StashAuthor { name, email },
            created_date: facts.author.when,
            branch_name,
            has_untracked: false,
            has_ignored: false,
            file_count: 0,
            description,
        })
    }

    /// Saves the local changes as a new stash, with the given message or
    /// "WIP on <branch>: <summary>". Only a success is recorded.
    pub fn create_stash(&mut self, config: StashCreateConfig) -> (r: Result<StashOperationResult, String>)
        requires
            config.message matches Some(m) ==> (commit_message_problem(m@) is None ==> cut_is_on_boundary(remove_chars(m@, true))),
        ensures
            r is Err ==> final(self).history() == old(self).history(),
            r matches Ok(x) ==> {
                &&& x.operation == OperationType::StashSave
                &&& if x.success {
                    &&& x.message@ == "Stash created successfully"@
                    &&& x.stash_index == Some(0usize)
                    &&& x.stash_info is Some
                    &&& (config.message matches Some(m) ==> commit_message_problem(m@) is None)
                    &&& final(self).history() == appended(old(self).history(), final(self).history().last(), HISTORY_LIMIT as nat)
                    &&& final(self).history().last().operation_type == OperationType::StashSave
                    &&& starts_with(final(self).history().last().description@, "Created stash: "@)
                    &&& (match config.message {
                        Some(m) => exists|t: Seq<char>| sanitized_commit_text(m@, t)
                            && final(self).history().last().description@ == "Created stash: "@ + t,
                        None => exists|b: Option<Seq<char>>, s: Option<Seq<char>>|
                            final(self).history().last().description@ == "Created stash: "@ + #[trigger] wip_text(b, s),
                    })
                    &&& opt_chars(final(self).history().last().new_state) == opt_chars(x.stash_id)
                    &&& string_views(final(self).history().last().affected_refs@) == seq!["refs/stash"@]
                } else {
                    &&& final(self).history() == old(self).history()
                    &&& x.stash_index is None && x.stash_id is None
                    &&& (x.message@ == "No changes to stash"@
                        || (config.message matches Some(m) && commit_message_problem(m@) matches Some(p)
                            && x.message@ == "Invalid stash message: "@ + ("Invalid input: "@ + m@ + " - "@ + p))
                        || starts_with(x.message@, "Failed to create signature: "@)
                        || starts_with(x.message@, "Failed to create stash: "@))
                }
            },
            r matches Ok(x) ==> exists|es: Seq<FileStatus>| {
                &&& (x.message@ == "No changes to stash"@ <==> !has_stashable(es, config))
                &&& (x.success ==> string_views(x.modified_files@) == kept_paths(es, stash_keeps(config)))
            },
    {
        let entries = match self.status() {
            Ok(v) => v,
            Err(e) => {
                return Err(e);
            },
        };
        let ghost es = entries@;
        if !any_stashable(&entries, &config) {
            return Ok(stash_failure(OperationType::StashSave, None, None, owned("No changes to stash"), None));
        }
        let head = head_facts(&self.repo);
        let message = match &config.message {
            Some(m) => {
                match InputValidator::validate_commit_message(m.as_str()) {
                    Err(e) => {
                        let text = concat("Invalid stash message: ", e.message().as_str());
                        proof {
                            lemma_not_no_changes(text@, "Invalid stash message: "@);
                        }
                        return Ok(stash_failure(OperationType::StashSave, None, None, text, None));
                    },
                    Ok(()) => {},
                }
                match InputSanitizer::sanitize_commit_message(m.as_str()) {
                    Ok(s) => s,
                    Err(e) => {
                        let text = concat("Failed to sanitize stash message: ", e.as_str());
                        return Ok(stash_failure(OperationType::StashSave, None, None, text, None));
                    },
                }
            },
            None => {
                let (branch, summary) = match &head {
                    Ok(h) => {
                        let s = match &h.target {
                            Some(t) => match commit_facts(&self.repo, t.as_str()) {
                                Ok(f) => f.summary,
                                Err(_) => None,
                            },
                            None => None,
                        };
                        (copy_opt_string(&h.shorthand), s)
                    },
                    Err(_) => (None, None),
                };
                wip_message(&branch, &summary)
            },
        };
        let modified = stashable_paths(&entries, &config);
        let opts = stash_options(&config);
        let (fallback_name, fallback_email) = crate::tags::fallback_identity();
        let sig = match repo_signature(&self.repo) {
            Ok(s) => s,
            Err(_) => match signature_now(fallback_name.as_str(), fallback_email.as_str()) {
                Ok(s) => s,
                Err(e) => {
                    let text = concat("Failed to create signature: ", error_text(&e).as_str());
                    proof {
                        lemma_not_no_changes(text@, "Failed to create signature: "@);
                    }
                    return Ok(stash_failure(OperationType::StashSave, None, None, text, None));
                },
            },
        };
        let stash_id = match stash_save(&mut self.repo, &sig, message.as_str(), opts) {
            Ok(id) => id,
            Err(e) => {
                let text = concat("Failed to create stash: ", error_text(&e).as_str());
                proof {
                    lemma_not_no_changes(text@, "Failed to create stash: "@);
                }
                return Ok(stash_failure(OperationType::StashSave, None, None, text, None));
            },
        };
        let info = match self.get_stash_info_by_index(0) {
            Ok(i) => i,
            Err(e) => {
                return Err(e);
            },
        };
        let description = concat("Created stash: ", message.as_str());
        let id_copy = owned(stash_id.as_str());
        self.record(OperationType::StashSave, description, None, Some(id_copy), one_ref("refs/stash"));
        let done = owned("Stash created successfully");
        proof {
            assert(done@.subrange(0, done@.len() as int) =~= done@);
            lemma_not_no_changes(done@, "Stash created successfully"@);
        }
        Ok(StashOperationResult {
            success: true,
            operation: OperationType::StashSave,
            stash_index: Some(0),
            stash_id: Some(stash_id),
            message: done,
            conflicts: Vec::new(),
            modified_files: modified,
            stash_info: Some(info),
        })
    }

    /// Applies the stash at `index`. An index past the last stash is
    /// reported in the result; only a success is recorded.
    pub fn apply_stash(&mut self, stash_index: usize, config: StashApplyConfig) -> (r: Result<StashOperationResult, String>)
        ensures
            r is Err ==> final(self).history() == old(self).history(),
            r matches Ok(x) ==> {
                &&& x.operation == OperationType::StashApply
                &&& x.stash_index == Some(stash_index)
                &&& if x.success {
                    &&& x.stash_info is Some
                    &&& (x.message@ == "Stash applied successfully"@ || starts_with(x.message@, "Stash applied with "@))
                    &&& final(self).history() == appended(old(self).history(), final(self).history().last(), HISTORY_LIMIT as nat)
                    &&& final(self).history().last().operation_type == OperationType::StashApply
                    &&& final(self).history().last().description@ == "Applied stash "@ + decimal(stash_index as nat) + ": "@ + x.stash_info->0.message@
                } else {
                    &&& final(self).history() == old(self).history()
                    &&& (exists|n: usize| stash_index >= n && x.message@ == out_of_range_message(stash_index, n))
                        || starts_with(x.message@, "Failed to apply stash: "@)
                }
            },
    {
        let count = self.get_stash_count();
        if stash_index >= count {
            let m = out_of_range(stash_index, count);
            return Ok(stash_failure(OperationType::StashApply, Some(stash_index), None, m, None));
        }
        let info = match self.get_stash_info_by_index(stash_index) {
            Ok(i) => i,
            Err(e) => {
                return Err(e);
            },
        };
        match stash_apply(&mut self.repo, stash_index, config.reinstate_index) {
            Err(e) => {
                let m = concat("Failed to apply stash: ", error_text(&e).as_str());
                let id = owned(info.id.as_str());
                Ok(stash_failure(OperationType::StashApply, Some(stash_index), Some(id), m, Some(info)))
            },
            Ok(()) => {
                let conflicts = match self.get_current_conflicts() {
                    Ok(c) => c,
                    Err(e) => {
                        return Err(e);
                    },
                };
                let modified = match self.get_modified_files() {
                    Ok(m) => m,
                    Err(e) => {
                        return Err(e);
                    },
                };
                let mut description = concat3("Applied stash ", usize_to_string(stash_index).as_str(), ": ");
                append_str(&mut description, info.message.as_str());
                self.record(OperationType::StashApply, description, None, Some(owned(info.id.as_str())), one_ref("HEAD"));
                let message = if conflicts.len() == 0 {
                    owned("Stash applied successfully")
                } else {
                    concat3("Stash applied with ", usize_to_string(conflicts.len()).as_str(), " conflicts")
                };
                let paths = stash_conflict_paths(conflicts);
                let id = owned(info.id.as_str());
                Ok(StashOperationResult {
                    success: true,
                    operation: OperationType::StashApply,
                    stash_index: Some(stash_index),
                    stash_id: Some(id),
                    message,
                    conflicts: paths,
                    modified_files: modified,
                    stash_info: Some(info),
                })
            },
        }
    }

    /// Drops the stash at `index`. An index past the last stash is reported
    /// in the result; only a success is recorded.
    pub fn drop_stash(&mut self, stash_index: usize) -> (r: Result<StashOperationResult, String>)
        ensures
            r is Err ==> final(self).history() == old(self).history(),
            r matches Ok(x) ==> {
                &&& x.operation == OperationType::StashDrop
                &&& x.stash_index == Some(stash_index)
                &&& if x.success {
                    &&& x.message@ == "Stash dropped successfully"@
                    &&& x.stash_info is Some
                    &&& final(self).history() == appended(old(self).history(), final(self).history().last(), HISTORY_LIMIT as nat)
                    &&& final(self).history().last().operation_type == OperationType::StashDrop
                    &&& final(self).history().last().description@ == "Dropped stash "@ + decimal(stash_index as nat) + ": "@ + x.stash_info->0.message@
                } else {
                    &&& final(self).history() == old(self).history()
                    &&& (exists|n: usize| stash_index >= n && x.message@ == out_of_range_message(stash_index, n))
                        || starts_with(x.message@, "Failed to drop stash: "@)
                }
            },
    {
        let count = self.get_stash_count();
        if stash_index >= count {
            let m = out_of_range(stash_index, count);
            return Ok(stash_failure(OperationType::StashDrop, Some(stash_index), None, m, None));
        }
        let info = match self.get_stash_info_by_index(stash_index) {
            Ok(i) => i,
            Err(e) => {
                return Err(e);
            },
        };
        let id = owned(info.id.as_str());
        match stash_drop(&mut self.repo, stash_index) {
            Err(e) => {
                let m = concat("Failed to drop stash: ", error_text(&e).as_str());
                Ok(stash_failure(OperationType::StashDrop, Some(stash_index), Some(id), m, Some(info)))
            },
            Ok(()) => {
                let mut description = concat3("Dropped stash ", usize_to_string(stash_index).as_str(), ": ");
                append_str(&mut description, info.message.as_str());
                self.record(OperationType::StashDrop, description, Some(owned(info.id.as_str())), None, one_ref("refs/stash"));
                Ok(StashOperationResult {
                    success: true,
                    operation: OperationType::StashDrop,
                    stash_index: Some(stash_index),
                    stash_id: Some(id),
                    message: owned("Stash dropped successfully"),
                    conflicts: Vec::new(),
                    modified_files: Vec::new(),
                    stash_info: Some(info),
                })
            },
        }
    }

    /// Applies the stash at `index` and then drops it; the pop succeeds only
    /// when both do, and then the last record is rewritten into one of the
    /// pop. A stash applied but not dropped is a failure.
    pub fn pop_stash(&mut self, stash_index: usize, config: StashApplyConfig) -> (r: Result<StashOperationResult, String>)
        ensures
            r matches Ok(x) ==> x.operation == OperationType::StashPop && x.stash_index == Some(stash_index),
            r matches Ok(x) ==> (if x.success {
                &&& x.message@ == "Stash popped successfully"@
                &&& x.stash_info is Some
                &&& final(self).history().len() >= 1
                &&& final(self).history().last().operation_type == OperationType::StashPop
                &&& starts_with(final(self).history().last().description@, "Popped stash "@ + decimal(stash_index as nat) + ": "@)
            } else {
                ||| starts_with(x.message@, "Stash applied but failed to remove: "@)
                ||| (exists|n: usize| stash_index >= n && x.message@ == out_of_range_message(stash_index, n))
                ||| starts_with(x.message@, "Failed to apply stash: "@)
            }),
    {
        let applied = match self.apply_stash(stash_index, config) {
            Ok(a) => a,
            Err(e) => {
                return Err(e);
            },
        };
        if !applied.success {
            return Ok(StashOperationResult { operation: OperationType::StashPop, ..applied });
        }
        let dropped = match self.drop_stash(stash_index) {
            Ok(d) => d,
            Err(e) => {
                return Err(e);
            },
        };
        if !dropped.success {
            let m = concat("Stash applied but failed to remove: ", dropped.message.as_str());
            return Ok(StashOperationResult { success: false, operation: OperationType::StashPop, message: m, ..applied });
        }
        let message_text = match &applied.stash_info {
            Some(s) => owned(s.message.as_str()),
            None => owned("unknown"),
        };
        let mut description = concat3("Popped stash ", usize_to_string(stash_index).as_str(), ": ");
        let ghost head_text = description@;
        append_str(&mut description, message_text.as_str());
        assert(description@.subrange(0, head_text.len() as int) =~= head_text);
        let n = self.operation_history.len();
        let mut last = self.operation_history.remove(n - 1);
        last.operation_type = OperationType::StashPop;
        last.description = description;
        self.operation_history.push(last);
        assert(self.operation_history@.last() == last);
        Ok(StashOperationResult {
            operation: OperationType::StashPop,
            message: owned("Stash popped successfully"),
            ..applied
        })
    }

    /// Stashes that pass `options` (all by default), in index order, at most
    /// its limit.
    pub fn list_stashes(&self, options: Option<StashListOptions>) -> (r: Result<Vec<StashInfo>, String>)
        ensures
            r is Ok,
            r matches Ok(v) ==> (options matches Some(o) ==> (forall|i: int| 0 <= i < v@.len() ==> stash_matches(#[trigger] v@[i], o))
                && (o.limit matches Some(l) ==> v@.len() <= l)),
            r matches Ok(v) ==> forall|i: int| 0 <= i < v@.len() ==> stash_described(#[trigger] v@[i]),
            r matches Ok(v) ==> forall|i: int, j: int| 0 <= i < j < v@.len() ==> v@[i].index < v@[j].index,
    {
        let o = match options {
            Some(o) => o,
            None => StashListOptions::default(),
        };
        let mut out: Vec<StashInfo> = Vec::new();
        let count = self.get_stash_count();
        let mut index: usize = 0;
        while index < count
            invariant
                index <= count,
                forall|i: int| 0 <= i < out@.len() ==> stash_matches(#[trigger] out@[i], o),
                o.limit matches Some(l) ==> out@.len() <= l,
                forall|i: int| 0 <= i < out@.len() ==> stash_described(#[trigger] out@[i]),
                forall|i: int| 0 <= i < out@.len() ==> (#[trigger] out@[i]).index < index,
                forall|i: int, j: int| 0 <= i < j < out@.len() ==> out@[i].index < out@[j].index,
            decreases count - index,
        {
            match o.limit {
                Some(l) => {
                    if out.len() >= l {
                        break;
                    }
                },
                None => {},
            }
            match self.get_stash_info_by_index(index) {
                Ok(info) => {
                    if matches_filters(&info, &o) {
                        out.push(info);
                    }
                },
                Err(_) => {},
            }
            index = index + 1;
        }
        Ok(out)
    }

    /// Drops every stash, newest index first, and records how many were
    /// dropped.
    pub fn clear_all_stashes(&mut self) -> (r: Result<StashOperationResult, String>)
        ensures
            r is Ok,
            r matches Ok(x) ==> {
                &&& x.success
                &&& x.operation == OperationType::StashDrop
                &&& x.stash_index is None
                &&& x.stash_id is None
                &&& x.stash_info is None
                &&& x.conflicts.len() == 0
                &&& x.modified_files.len() == 0
                &&& (x.message@ == "No stashes to clear"@ && final(self).history() == old(self).history())
                    || ((exists|d: nat| x.message@ == cleared_message(d))
                        && final(self).history().last().operation_type == OperationType::StashDrop
                        && final(self).history().last().description@ == x.message@
                        && opt_chars(final(self).history().last().new_state) == Some("0 stashes"@))
            },
    {
        let count = self.get_stash_count();
        if count == 0 {
            return Ok(StashOperationResult {
                success: true,
                operation: OperationType::StashDrop,
                stash_index: None,
                stash_id: None,
                message: owned("No stashes to clear"),
                conflicts: Vec::new(),
                modified_files: Vec::new(),
                stash_info: None,
            });
        }
        let mut dropped: usize = 0;
        let mut index: usize = count;
        while index > 0
            invariant
                index <= count,
                dropped <= count - index,
            decreases index,
        {
            index = index - 1;
            match self.drop_stash(index) {
                Ok(res) => {
                    if res.success {
                        dropped = dropped + 1;
                    }
                },
                Err(_) => {},
            }
        }
        let text = concat3("Cleared ", usize_to_string(dropped).as_str(), " stashes");
        assert(text@ == cleared_message(dropped as nat));
        let before = concat(usize_to_string(count).as_str(), " stashes");
        self.record(OperationType::StashDrop, owned(text.as_str()), Some(before), Some(owned("0 stashes")), one_ref("refs/stash"));
        Ok(StashOperationResult {
            success: true,
            operation: OperationType::StashDrop,
            stash_index: None,
            stash_id: None,
            message: text,
            conflicts: Vec::new(),
            modified_files: Vec::new(),
            stash_info: None,
        })
    }
}

/// A stash as the list shows it: described by its index and message, with
/// the branch named in the message, and no file counts taken.
pub open spec fn stash_described(s: StashInfo) -> bool {
    &&& s.description@ == "Stash@{"@ + decimal(s.index as nat) + "}: "@ + s.message@
    &&& opt_chars(s.branch_name) == branch_of_message(s.message@)
    &&& s.file_count == 0
    &&& !s.has_untracked
    &&& !s.has_ignored
}

/// The message of a stash saved without one: "WIP on", the branch (or
/// "detached"), and the summary of HEAD's commit (or "no commits").
pub open spec fn wip_text(branch: Option<Seq<char>>, summary: Option<Seq<char>>) -> Seq<char> {
    "WIP on "@ + (match branch {
        Some(b) => b,
        None => "detached"@,
    }) + ": "@ + (match summary {
        Some(s) => s,
        None => "no commits"@,
    })
}

/// The message of a stash saved without one (see [`wip_text`]).
pub fn wip_message(branch: &Option<String>, summary: &Option<String>) -> (r: String)
    ensures
        r@ == wip_text(opt_chars(*branch), opt_chars(*summary)),
{
    let b = match branch {
        Some(s) => owned(s.as_str()),
        None => owned("detached"),
    };
    let s = match summary {
        Some(t) => owned(t.as_str()),
        None => owned("no commits"),
    };
    let mut text = concat3("WIP on ", b.as_str(), ": ");
    append_str(&mut text, s.as_str());
    text
}

fn copy_opt_string(o: &Option<String>) -> (r: Option<String>)
    ensures
        opt_chars(r) == opt_chars(*o),
{
    match o {
        Some(s) => Some(owned(s.as_str())),
        None => None,
    }
}

/// What saving a stash with `config` keeps: the index when asked, and
/// untracked and ignored files when asked for or when all files are.
pub fn stash_options(config: &StashCreateConfig) -> (r: StashOptionSet)
    ensures
        r.keep_index == config.keep_index,
        r.include_untracked == (config.include_untracked || config.all_files),
        r.include_ignored == (config.include_ignored || config.all_files),
{
    StashOptionSet {
        keep_index: config.keep_index,
        include_untracked: config.include_untracked || config.all_files,
        include_ignored: config.include_ignored || config.all_files,
    }
}

/// A message that begins with `prefix` is not the no-changes message, for
/// the prefixes of the other outcomes of creating a stash.
proof fn lemma_not_no_changes(m: Seq<char>, prefix: Seq<char>)
    requires
        starts_with(m, prefix),
        prefix == "Invalid stash message: "@ || prefix == "Failed to create signature: "@
            || prefix == "Failed to create stash: "@ || prefix == "Stash created successfully"@,
    ensures
        m != "No changes to stash"@,
{
    reveal_strlit("No changes to stash");
    reveal_strlit("Invalid stash message: ");
    reveal_strlit("Failed to create signature: ");
    reveal_strlit("Failed to create stash: ");
    reveal_strlit("Stash created successfully");
    assert(m[0] == prefix[0]);
}

/// The message of a clear that dropped `dropped` stashes.
pub open spec fn cleared_message(dropped: nat) -> Seq<char> {
    "Cleared "@ + decimal(dropped) + " stashes"@
}

/// The revision naming the stash at `index`: `stash@{index}`.
pub fn stash_ref(index: usize) -> (r: String)
    ensures
        r@ == "stash@{"@ + decimal(index as nat) + "}"@,
{
    concat3("stash@{", usize_to_string(index).as_str(), "}")
}

/// The paths of stash conflicts, in order.
fn stash_conflict_paths(conflicts: Vec<StashConflict>) -> (r: Vec<String>)
    ensures
        r@.len() == conflicts@.len(),
{
    let mut rest = conflicts;
    let mut out: Vec<String> = Vec::new();
    let n: usize = rest.len();
    while rest.len() > 0
        invariant
            out@.len() + rest@.len() == n,
        decreases rest.len(),
    {
        let c = rest.remove(0);
        out.push(c.path);
    }
    out
}

} // verus!
