//! Operation records, their bounded history, and the input checks shared by
//! the repository managers.

use vstd::prelude::*;
use crate::errors::{commit_id_problem, ref_forbidden_chars, ref_name_problem, InputValidator};
use crate::security::{
    sanitize_commit_id_spec, sanitize_ref_name_spec, sanitizer_ref_forbidden_chars, InputSanitizer,
    clock_nanos,
};
use crate::text::first_listed_from;
use crate::text::{concat, concat3, result_view};

verus! {

/// Kind of a repository operation.
#[derive(Debug, Clone, Copy, PartialEq, Eq, Structural)]
pub enum OperationType {
    BranchCreate,
    BranchDelete,
    BranchRename,
    BranchCheckout,
    BranchMerge,
    BranchRebase,
    CommitCherryPick,
    CommitRevert,
    CommitReset,
    CommitAmend,
    TagCreate,
    TagDelete,
    TagMove,
    StashSave,
    StashApply,
    StashPop,
    StashDrop,
    RemoteFetch,
    RemotePull,
    RemotePush,
}

/// A performed operation, kept for undo and display.
#[derive(Debug, Clone)]
pub struct OperationRecord {
    pub operation_type: OperationType,
    /// Seconds since the Unix epoch.
    pub timestamp: i64,
    pub description: String,
    /// HEAD or branch target before the operation.
    pub original_state: Option<String>,
    /// HEAD or branch target after the operation.
    pub new_state: Option<String>,
    /// References the operation changed.
    pub affected_refs: Vec<String>,
}

/// Outcome of a branch operation.
#[derive(Debug)]
pub struct BranchOperationResult {
    pub success: bool,
    pub operation: OperationType,
    pub branch_name: String,
    pub commit_id: Option<String>,
    pub message: String,
    pub conflicts: Vec<String>,
    pub modified_files: Vec<String>,
}

/// Number of records each manager keeps.
pub const HISTORY_LIMIT: usize = 100;

/// The history after appending `r` and dropping the oldest record when the
/// history grows past `cap`.
pub open spec fn appended(h: Seq<OperationRecord>, r: OperationRecord, cap: nat) -> Seq<
    OperationRecord,
> {
    if h.len() + 1 > cap {
        h.push(r).drop_first()
    } else {
        h.push(r)
    }
}

/// Appends `r` to `history`, dropping the oldest record when the history
/// grows past `cap`.
pub fn record_capped(history: &mut Vec<OperationRecord>, r: OperationRecord, cap: usize)
    requires
        cap >= 1,
    ensures
        final(history)@ == appended(old(history)@, r, cap as nat),
        final(history)@.last() == r,
{
    history.push(r);
    if history.len() > cap {
        history.remove(0);
    }
}

/// A bounded history stays bounded, and its last record is the one appended
/// last.
pub proof fn lemma_history_bounded(h: Seq<OperationRecord>, r: OperationRecord, cap: nat)
    requires
        cap >= 1,
        h.len() <= cap,
    ensures
        appended(h, r, cap).len() <= cap,
        appended(h, r, cap).len() >= 1,
        appended(h, r, cap).last() == r,
{
}

/// The record appended last is the last one kept.
pub proof fn lemma_appended_last(h: Seq<OperationRecord>, r: OperationRecord, cap: nat)
    requires
        cap >= 1,
    ensures
        appended(h, r, cap).len() >= 1,
        appended(h, r, cap).last() == r,
{
}

/// The current time in whole seconds since the Unix epoch.
pub fn now_seconds() -> (t: i64)
    ensures
        t >= 0,
{
    let n = clock_nanos();
    (n / 1_000_000_000) as i64
}

/// What validating and sanitizing a reference name gives: the sanitized
/// name, or the message reporting the first problem, prefixed by what kind
/// of name it is (`"tag"`, `"branch"`, `"remote"`).
pub open spec fn checked_ref_name(name: Seq<char>, what: Seq<char>) -> Result<
    Seq<char>,
    Seq<char>,
> {
    match ref_name_problem(name) {
        Some(p) => Err("Invalid "@ + what + " name: "@ + ("Invalid input: "@ + name + " - "@ + p)),
        None => match sanitize_ref_name_spec(name) {
            Ok(s) => Ok(s),
            Err(e) => Err("Failed to sanitize "@ + what + " name: "@ + e),
        },
    }
}

/// What validating and sanitizing a commit id gives.
pub open spec fn checked_commit_id(id: Seq<char>) -> Result<Seq<char>, Seq<char>> {
    match commit_id_problem(id) {
        Some(p) => Err("Invalid commit ID: "@ + ("Invalid input: "@ + id + " - "@ + p)),
        None => match sanitize_commit_id_spec(id) {
            Ok(s) => Ok(s),
            Err(e) => Err("Failed to sanitize commit ID: "@ + e),
        },
    }
}

proof fn lemma_first_listed_none(s: Seq<char>, l: Seq<char>, k: int)
    requires
        0 <= k,
        first_listed_from(s, l, k) is None,
    ensures
        forall|j: int| k <= j < l.len() ==> !s.contains(#[trigger] l[j]),
    decreases l.len() - k,
{
    if k < l.len() {
        lemma_first_listed_none(s, l, k + 1);
    }
}

proof fn lemma_none_listed(s: Seq<char>, l: Seq<char>, k: int)
    requires
        0 <= k,
        forall|j: int| k <= j < l.len() ==> !s.contains(#[trigger] l[j]),
    ensures
        first_listed_from(s, l, k) is None,
    decreases l.len() - k,
{
    if k < l.len() {
        lemma_none_listed(s, l, k + 1);
    }
}

/// A reference name that passes validation is left unchanged by
/// sanitization.
pub proof fn lemma_valid_ref_sanitizes(name: Seq<char>)
    requires
        ref_name_problem(name) is None,
    ensures
        sanitize_ref_name_spec(name) == Ok::<Seq<char>, Seq<char>>(name),
{
    let l = ref_forbidden_chars();
    let s = sanitizer_ref_forbidden_chars();
    lemma_first_listed_none(name, l, 0);
    assert forall|j: int| 0 <= j < s.len() implies !name.contains(#[trigger] s[j]) by {
        assert(s[j] == l[j]);
    }
    lemma_none_listed(name, s, 0);
}

/// Validates and sanitizes a reference name.
pub fn check_ref_name(name: &str, what: &str) -> (r: Result<String, String>)
    ensures
        result_view(r) == checked_ref_name(name@, what@),
{
    match InputValidator::validate_ref_name(name) {
        Err(e) => {
            let m = e.message();
            let mut out = concat3("Invalid ", what, " name: ");
            crate::text::append_str(&mut out, m.as_str());
            Err(out)
        },
        Ok(()) => match InputSanitizer::sanitize_ref_name(name) {
            Ok(s) => Ok(s),
            Err(e) => {
                let mut out = concat3("Failed to sanitize ", what, " name: ");
                crate::text::append_str(&mut out, e.as_str());
                Err(out)
            },
        },
    }
}

/// Validates and sanitizes a commit id.
pub fn check_commit_id(id: &str) -> (r: Result<String, String>)
    ensures
        result_view(r) == checked_commit_id(id@),
{
    match InputValidator::validate_commit_id(id) {
        Err(e) => {
            let m = e.message();
            Err(concat("Invalid commit ID: ", m.as_str()))
        },
        Ok(()) => match InputSanitizer::sanitize_commit_id(id) {
            Ok(s) => Ok(s),
            Err(e) => Err(concat("Failed to sanitize commit ID: ", e.as_str())),
        },
    }
}

} // verus!
