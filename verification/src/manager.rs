//! One entry point for repository operations: branches directly, tags,
//! commits, stashes and remotes through their managers, with a combined
//! history.

use vstd::prelude::*;
use crate::commits::{reset_name, CherryPickConfig, CommitOperationResult, CommitOperations, ResetConfig, RevertConfig};
use crate::libgit::{
    branch_target, checkout_commit_tree, create_branch, delete_branch, head_facts, list_branches,
    oid_text, parse_oid, reopen, set_head, BranchItem, FileStatus, RepoState,
};
use crate::operations::{
    appended, check_commit_id, check_ref_name, checked_commit_id, checked_ref_name, now_seconds,
    record_capped, BranchOperationResult, OperationRecord, OperationType, HISTORY_LIMIT,
};
use crate::remotes::{
    sanitized_url, unprobed, CredentialsProvider, FetchConfig, ProgressHandler, PullConfig, PushConfig, RemoteInfo,
    RemoteManager, RemoteOperationResult,
};
use crate::repository::{error_text, GitRepository};
use crate::stash::{
    branch_of_message, cleared_message, has_stashable, kept_paths, out_of_range_message, stash_described,
    stash_keeps, stash_matches, StashApplyConfig, StashCreateConfig, StashInfo, StashListOptions, StashManager, StashOperationResult};
use crate::security::cut_is_on_boundary;
use crate::errors::commit_message_problem;
use crate::tags::{
    filter_or_default, is_protected, passes_filter, points_at_or_annotated, short8, tag_create_failure, tags_sorted, TagCreateConfig,
    TagFilterOptions, TagInfo, TagManager, TagOperationResult, TagType,
};
use crate::text::{all_hex, append_str, decimal, concat, concat3, owned, prefix_chars, remove_chars, starts_with, string_eq};
use crate::views::{opt_chars, string_views};

verus! {

/// Two records say the same.
pub open spec fn same_record(a: OperationRecord, b: OperationRecord) -> bool {
    &&& a.operation_type == b.operation_type
    &&& a.timestamp == b.timestamp
    &&& a.description@ == b.description@
    &&& opt_chars(a.original_state) == opt_chars(b.original_state)
    &&& opt_chars(a.new_state) == opt_chars(b.new_state)
    &&& string_views(a.affected_refs@) == string_views(b.affected_refs@)
}

fn copy_opt(o: &Option<String>) -> (r: Option<String>)
    ensures
        opt_chars(r) == opt_chars(*o),
{
    match o {
        Some(s) => Some(owned(s.as_str())),
        None => None,
    }
}

/// A copy of a record.
pub fn copy_record(r: &OperationRecord) -> (c: OperationRecord)
    ensures
        same_record(c, *r),
{
    let mut refs: Vec<String> = Vec::new();
    let mut i: usize = 0;
    while i < r.affected_refs.len()
        invariant
            i <= r.affected_refs.len(),
            string_views(refs@) == string_views(r.affected_refs@).take(i as int),
        decreases r.affected_refs.len() - i,
    {
        let ghost before = string_views(refs@);
        refs.push(owned(r.affected_refs[i].as_str()));
        assert(string_views(refs@) =~= before.push(r.affected_refs@[i as int]@));
        assert(string_views(r.affected_refs@).take(i as int + 1) =~= string_views(r.affected_refs@).take(
            i as int,
        ).push(r.affected_refs@[i as int]@));
        i = i + 1;
    }
    assert(string_views(r.affected_refs@).take(r.affected_refs@.len() as int) =~= string_views(r.affected_refs@));
    OperationRecord {
        operation_type: r.operation_type,
        timestamp: r.timestamp,
        description: owned(r.description.as_str()),
        original_state: copy_opt(&r.original_state),
        new_state: copy_opt(&r.new_state),
        affected_refs: refs,
    }
}

/// The combined history after taking over the last record of a manager's
/// history `sub`, if it has one.
pub open spec fn merged(h: Seq<OperationRecord>, sub: Seq<OperationRecord>, after: Seq<OperationRecord>) -> bool {
    if sub.len() > 0 {
        after.len() == h.len() + 1 && after.take(h.len() as int) == h && same_record(after.last(), sub.last())
    } else {
        after == h
    }
}

fn branch_failure(op: OperationType, name: String, commit_id: Option<String>, message: String) -> (r: BranchOperationResult)
    ensures
        !r.success && r.operation == op && r.branch_name == name && r.commit_id == commit_id && r.message == message,
        r.conflicts@.len() == 0 && r.modified_files@.len() == 0,
{
    BranchOperationResult {
        success: false,
        operation: op,
        branch_name: name,
        commit_id,
        message,
        conflicts: Vec::new(),
        modified_files: Vec::new(),
    }
}

/// Whether `m` reports a failure that creating a branch with a valid name
/// at a valid commit can meet.
pub open spec fn branch_create_failure(m: Seq<char>) -> bool {
    ||| starts_with(m, "Invalid commit OID: "@)
    ||| starts_with(m, "Commit not found: "@)
    ||| starts_with(m, "Failed to create branch: "@)
}

/// Whether `name` is the branch HEAD is on, given the short name of what
/// HEAD points to (none when HEAD cannot be read): deleting it is refused.
pub fn is_current_branch(head_branch: &Option<String>, name: &str) -> (r: bool)
    ensures
        r == (opt_chars(*head_branch) == Some(name@)),
{
    match head_branch {
        Some(current) => string_eq(current.as_str(), name),
        None => false,
    }
}

/// The names of listed branches, in order: entries that cannot be read
/// are passed over, names that are not UTF-8 are left out; none when a
/// name cannot be read.
pub open spec fn readable_names(items: Seq<Result<BranchItem, git2::Error>>) -> Option<Seq<Seq<char>>>
    decreases items.len(),
{
    if items.len() == 0 {
        Some(Seq::empty())
    } else {
        match readable_names(items.drop_last()) {
            None => None,
            Some(rest) => match items.last() {
                Ok(b) => match b.name {
                    Ok(Some(n)) => Some(rest.push(n@)),
                    Ok(None) => Some(rest),
                    Err(_) => None,
                },
                Err(_) => Some(rest),
            },
        }
    }
}

/// The names of listed branches (see [`readable_names`]); fails with the
/// first name that cannot be read.
pub fn readable_branch_names(items: &Vec<Result<BranchItem, git2::Error>>) -> (r: Result<Vec<String>, String>)
    ensures
        r is Ok <==> readable_names(items@) is Some,
        r matches Ok(v) ==> string_views(v@) == readable_names(items@)->0,
{
    let mut out: Vec<String> = Vec::new();
    let mut i: usize = 0;
    while i < items.len()
        invariant
            i <= items.len(),
            readable_names(items@.take(i as int)) == Some(string_views(out@)),
        decreases items.len() - i,
    {
        assert(items@.take(i as int + 1).drop_last() =~= items@.take(i as int));
        let ghost before = out@;
        match &items[i] {
            Ok(b) => match &b.name {
                Ok(Some(n)) => {
                    out.push(owned(n.as_str()));
                    assert(string_views(out@) =~= string_views(before).push(n@));
                },
                Ok(None) => {},
                Err(e) => {
                    proof {
                        lemma_unreadable_stays(items@, i as int + 1);
                    }
                    return Err(error_text(e));
                },
            },
            Err(_) => {},
        }
        i = i + 1;
    }
    assert(items@.take(items@.len() as int) =~= items@);
    Ok(out)
}

/// Once a name cannot be read, no longer listing can be read either.
proof fn lemma_unreadable_stays(items: Seq<Result<BranchItem, git2::Error>>, k: int)
    requires
        0 <= k <= items.len(),
        readable_names(items.take(k)) is None,
    ensures
        readable_names(items) is None,
    decreases items.len() - k,
{
    if k < items.len() {
        assert(items.take(k + 1).drop_last() =~= items.take(k));
        lemma_unreadable_stays(items, k + 1);
    } else {
        assert(items.take(k) =~= items);
    }
}

/// Whether a deletion of the branch `n`, while HEAD is on the branch
/// `head` (none when HEAD is on no branch or cannot be read), is refused as
/// a deletion of the current branch exactly when `n` is that branch.
pub open spec fn refused_as_current(head: Option<Seq<char>>, n: Seq<char>, success: bool, message: Seq<char>) -> bool {
    head == Some(n) <==> (!success && message == "Cannot delete current branch"@)
}

/// A message that begins with `prefix` is not the refusal to delete the
/// current branch, for the prefixes of the other failures of a deletion.
proof fn lemma_not_current_refusal(m: Seq<char>, prefix: Seq<char>)
    requires
        starts_with(m, prefix),
        prefix == "Branch not found: "@ || prefix == "Failed to delete branch: "@,
    ensures
        m != "Cannot delete current branch"@,
{
    reveal_strlit("Cannot delete current branch");
    reveal_strlit("Branch not found: ");
    reveal_strlit("Failed to delete branch: ");
    assert(m[0] == prefix[0]);
}

/// Takes over the last record of a manager's history `sub`, if it has one.
fn merge_last(history: &mut Vec<OperationRecord>, sub: &[OperationRecord])
    ensures
        merged(old(history)@, sub@, final(history)@),
{
    if sub.len() > 0 {
        let c = copy_record(&sub[sub.len() - 1]);
        history.push(c);
        assert(history@.take(old(history)@.len() as int) =~= old(history)@);
    }
}

/// Repository operations with a combined history.
pub struct GitOperations {
    repo: git2::Repository,
    operation_history: Vec<OperationRecord>,
    tag_manager: TagManager,
    commit_operations: CommitOperations,
    stash_manager: StashManager,
    remote_manager: RemoteManager,
}

impl GitOperations {
    /// The combined history, oldest first.
    pub closed spec fn history(&self) -> Seq<OperationRecord> {
        self.operation_history@
    }

    /// Whether later remote operations ask a provider for credentials.
    pub closed spec fn has_credentials_provider(&self) -> bool {
        self.remote_manager.has_credentials_provider()
    }

    /// Whether later remote operations report their progress to a handler.
    pub closed spec fn has_progress_handler(&self) -> bool {
        self.remote_manager.has_progress_handler()
    }

    /// Operations on the repository of `git_repo`, with empty histories.
    pub fn new(git_repo: &GitRepository) -> (r: Result<GitOperations, String>)
        ensures
            r matches Ok(m) ==> m.history().len() == 0,
    {
        let repo = match reopen(git_repo.get_repository()) {
            Ok(r) => r,
            Err(e) => {
                return Err(error_text(&e));
            },
        };
        let tag_manager = match TagManager::new(git_repo) {
            Ok(m) => m,
            Err(e) => {
                return Err(e);
            },
        };
        let commit_operations = match CommitOperations::new(git_repo) {
            Ok(m) => m,
            Err(e) => {
                return Err(e);
            },
        };
        let stash_manager = match StashManager::new(git_repo) {
            Ok(m) => m,
            Err(e) => {
                return Err(e);
            },
        };
        let remote_manager = match RemoteManager::new(git_repo) {
            Ok(m) => m,
            Err(e) => {
                return Err(e);
            },
        };
        Ok(GitOperations {
            repo,
            operation_history: Vec::new(),
            tag_manager,
            commit_operations,
            stash_manager,
            remote_manager,
        })
    }

    /// The combined history, oldest first.
    pub fn get_operation_history(&self) -> (r: &[OperationRecord])
        ensures
            r@ == self.history(),
    {
        self.operation_history.as_slice()
    }

    fn head_target(&self) -> Option<String> {
        match head_facts(&self.repo) {
            Ok(h) => h.target,
            Err(_) => None,
        }
    }

    /// Checks out the branch `branch_name` and points HEAD at it.
    fn checkout_branch_simple(&self, branch_name: &str) -> (r: Result<(), String>) {
        let target = match branch_target(&self.repo, branch_name) {
            Ok(Some(t)) => t,
            Ok(None) => {
                return Err(owned("Branch has no target commit"));
            },
            Err(e) => {
                return Err(error_text(&e));
            },
        };
        match checkout_commit_tree(&self.repo, target.as_str()) {
            Ok(()) => {},
            Err(e) => {
                return Err(error_text(&e));
            },
        }
        let refname = concat("refs/heads/", branch_name);
        match set_head(&self.repo, refname.as_str()) {
            Ok(()) => Ok(()),
            Err(e) => Err(error_text(&e)),
        }
    }

    /// Creates the branch `branch_name` at `target_commit` and, when asked,
    /// checks it out. The name and commit are validated and sanitized
    /// first; a failure is reported in the result. A created branch whose
    /// checkout fails is a success that is not recorded.
    pub fn create_branch(&mut self, branch_name: &str, target_commit: &str, checkout: bool) -> (r: Result<BranchOperationResult, String>)
        ensures
            r is Ok,
            r->Ok_0.operation == OperationType::BranchCreate,
            checked_ref_name(branch_name@, "branch"@) matches Err(m) ==> !r->Ok_0.success
                && r->Ok_0.message@ == m && r->Ok_0.branch_name@ == branch_name@ && r->Ok_0.commit_id is None
                && final(self).history() == old(self).history(),
            checked_ref_name(branch_name@, "branch"@) is Ok ==> (checked_commit_id(target_commit@) matches Err(m)
                ==> !r->Ok_0.success && r->Ok_0.message@ == m && r->Ok_0.branch_name@ == branch_name@
                && r->Ok_0.commit_id is None && final(self).history() == old(self).history()),
            (checked_ref_name(branch_name@, "branch"@), checked_commit_id(target_commit@)) matches (Ok(n), Ok(c))
                ==> r->Ok_0.branch_name@ == n && (if r->Ok_0.success {
                &&& opt_chars(r->Ok_0.commit_id) == Some(c)
                &&& ({
                    &&& r->Ok_0.message@ == "Successfully created branch"@
                    &&& final(self).history() == appended(old(self).history(), final(self).history().last(), HISTORY_LIMIT as nat)
                    &&& final(self).history().last().operation_type == OperationType::BranchCreate
                    &&& final(self).history().last().description@ == "Created branch '"@ + n + "' at commit "@ + short8(c)
                    &&& (checkout ==> opt_chars(final(self).history().last().new_state) == Some(oid_text(c)))
                    &&& (!checkout ==> opt_chars(final(self).history().last().new_state) == opt_chars(final(self).history().last().original_state))
                } || {
                    &&& checkout
                    &&& starts_with(r->Ok_0.message@, "Branch created but checkout failed: "@)
                    &&& final(self).history() == old(self).history()
                })
            } else {
                &&& final(self).history() == old(self).history()
                &&& branch_create_failure(r->Ok_0.message@)
            }),
    {
        let name = match check_ref_name(branch_name, "branch") {
            Ok(n) => n,
            Err(m) => {
                return Ok(branch_failure(OperationType::BranchCreate, owned(branch_name), None, m));
            },
        };
        let commit = match check_commit_id(target_commit) {
            Ok(c) => c,
            Err(m) => {
                return Ok(branch_failure(OperationType::BranchCreate, owned(branch_name), None, m));
            },
        };
        let original_head = self.head_target();
        let oid = match parse_oid(commit.as_str()) {
            Ok(o) => o,
            Err(e) => {
                let m = concat("Invalid commit OID: ", error_text(&e).as_str());
                return Ok(branch_failure(OperationType::BranchCreate, name, None, m));
            },
        };
        let refname = match create_branch(&self.repo, name.as_str(), oid.as_str()) {
            Err(e) => {
                let m = concat("Commit not found: ", error_text(&e).as_str());
                return Ok(branch_failure(OperationType::BranchCreate, name, Some(commit), m));
            },
            Ok(Err(e)) => {
                let m = concat("Failed to create branch: ", error_text(&e).as_str());
                return Ok(branch_failure(OperationType::BranchCreate, name, Some(commit), m));
            },
            Ok(Ok(Some(r))) => r,
            Ok(Ok(None)) => owned("unknown"),
        };
        if checkout {
            match self.checkout_branch_simple(name.as_str()) {
                Ok(()) => {},
                Err(e) => {
                    return Ok(BranchOperationResult {
                        success: true,
                        operation: OperationType::BranchCreate,
                        branch_name: name,
                        commit_id: Some(commit),
                        message: concat("Branch created but checkout failed: ", e.as_str()),
                        conflicts: Vec::new(),
                        modified_files: Vec::new(),
                    });
                },
            }
        }
        let mut description = concat3("Created branch '", name.as_str(), "' at commit ");
        append_str(&mut description, prefix_chars(commit.as_str(), 8).as_str());
        let new_state = if checkout {
            Some(oid)
        } else {
            copy_opt(&original_head)
        };
        let mut refs: Vec<String> = Vec::new();
        refs.push(refname);
        let record = OperationRecord {
            operation_type: OperationType::BranchCreate,
            timestamp: now_seconds(),
            description,
            original_state: original_head,
            new_state,
            affected_refs: refs,
        };
        record_capped(&mut self.operation_history, record, HISTORY_LIMIT);
        Ok(BranchOperationResult {
            success: true,
            operation: OperationType::BranchCreate,
            branch_name: name,
            commit_id: Some(commit),
            message: owned("Successfully created branch"),
            conflicts: Vec::new(),
            modified_files: Vec::new(),
        })
    }

    /// Deletes the local branch `branch_name`, which may not be the current
    /// branch. A failure is reported in the result; only a success is
    /// recorded.
    pub fn delete_branch(&mut self, branch_name: &str, force: bool) -> (r: Result<BranchOperationResult, String>)
        ensures
            r is Ok,
            r->Ok_0.operation == OperationType::BranchDelete,
            checked_ref_name(branch_name@, "branch"@) matches Err(m) ==> !r->Ok_0.success
                && r->Ok_0.message@ == m && r->Ok_0.branch_name@ == branch_name@
                && final(self).history() == old(self).history(),
            checked_ref_name(branch_name@, "branch"@) matches Ok(n) ==> r->Ok_0.branch_name@ == n && (if r->Ok_0.success {
                &&& r->Ok_0.message@ == "Successfully deleted branch"@
                &&& final(self).history() == appended(old(self).history(), final(self).history().last(), HISTORY_LIMIT as nat)
                &&& final(self).history().last().operation_type == OperationType::BranchDelete
                &&& final(self).history().last().description@ == "Deleted branch '"@ + n + "'"@
                &&& opt_chars(final(self).history().last().original_state) == opt_chars(r->Ok_0.commit_id)
                &&& final(self).history().last().new_state is None
            } else {
                &&& final(self).history() == old(self).history()
                &&& (r->Ok_0.message@ == "Cannot delete current branch"@
                    || starts_with(r->Ok_0.message@, "Branch not found: "@)
                    || starts_with(r->Ok_0.message@, "Failed to delete branch: "@))
            }),
            checked_ref_name(branch_name@, "branch"@) matches Ok(n) ==> exists|head: Option<Seq<char>>|
                #[trigger] refused_as_current(head, n, r->Ok_0.success, r->Ok_0.message@),
    {
        let name = match check_ref_name(branch_name, "branch") {
            Ok(n) => n,
            Err(m) => {
                return Ok(branch_failure(OperationType::BranchDelete, owned(branch_name), None, m));
            },
        };
        let head_branch = match head_facts(&self.repo) {
            Ok(h) => h.shorthand,
            Err(_) => None,
        };
        let ghost head = opt_chars(head_branch);
        if is_current_branch(&head_branch, name.as_str()) {
            let r = branch_failure(OperationType::BranchDelete, name, None, owned("Cannot delete current branch"));
            assert(refused_as_current(head, r.branch_name@, r.success, r.message@));
            return Ok(r);
        }
        assert(head != Some(name@));
        let removal = match delete_branch(&self.repo, name.as_str()) {
            Ok(r) => r,
            Err(e) => {
                let m = concat("Branch not found: ", error_text(&e).as_str());
                proof {
                    lemma_not_current_refusal(m@, "Branch not found: "@);
                }
                let r = branch_failure(OperationType::BranchDelete, name, None, m);
                assert(refused_as_current(head, r.branch_name@, r.success, r.message@));
                return Ok(r);
            },
        };
        match removal.outcome {
            Err(e) => {
                let m = concat("Failed to delete branch: ", error_text(&e).as_str());
                proof {
                    lemma_not_current_refusal(m@, "Failed to delete branch: "@);
                }
                let r = branch_failure(OperationType::BranchDelete, name, removal.target, m);
                assert(refused_as_current(head, r.branch_name@, r.success, r.message@));
                Ok(r)
            },
            Ok(()) => {
                let refname = match removal.refname {
                    Some(r) => r,
                    None => owned("unknown"),
                };
                let mut refs: Vec<String> = Vec::new();
                refs.push(refname);
                let record = OperationRecord {
                    operation_type: OperationType::BranchDelete,
                    timestamp: now_seconds(),
                    description: concat3("Deleted branch '", name.as_str(), "'"),
                    original_state: copy_opt(&removal.target),
                    new_state: None,
                    affected_refs: refs,
                };
                record_capped(&mut self.operation_history, record, HISTORY_LIMIT);
                let r = BranchOperationResult {
                    success: true,
                    operation: OperationType::BranchDelete,
                    branch_name: name,
                    commit_id: removal.target,
                    message: owned("Successfully deleted branch"),
                    conflicts: Vec::new(),
                    modified_files: Vec::new(),
                };
                assert(refused_as_current(head, r.branch_name@, r.success, r.message@));
                Ok(r)
            },
        }
    }

    fn branch_names(&self, remote: bool) -> (r: Result<Vec<String>, String>) {
        let items = match list_branches(&self.repo, remote) {
            Ok(v) => v,
            Err(e) => {
                return Err(error_text(&e));
            },
        };
        readable_branch_names(&items)
    }

    /// Names of the local branches.
    pub fn list_local_branches(&self) -> (r: Result<Vec<String>, String>) {
        self.branch_names(false)
    }

    /// Names of the remote-tracking branches.
    pub fn list_remote_branches(&self) -> (r: Result<Vec<String>, String>) {
        self.branch_names(true)
    }

    /// Short name of what HEAD points to, if HEAD can be read.
    pub fn get_current_branch(&self) -> (r: Result<Option<String>, String>)
        ensures
            r is Ok,
    {
        match head_facts(&self.repo) {
            Ok(h) => Ok(h.shorthand),
            Err(_) => Ok(None),
        }
    }

    /// Whether HEAD can be read and is not a branch.
    pub fn is_detached_head(&self) -> bool {
        match head_facts(&self.repo) {
            Ok(h) => !h.is_branch,
            Err(_) => false,
        }
    }

    /// Creates a tag (see [`TagManager::create_tag`]) and takes over the
    /// tag history's last record.
    pub fn create_tag(&mut self, tag_name: &str, target_commit: &str, config: TagCreateConfig) -> (r: Result<TagOperationResult, String>)
        ensures
            r matches Ok(_) ==> exists|sub: Seq<OperationRecord>| merged(old(self).history(), sub, final(self).history()),
            r is Err ==> final(self).history() == old(self).history(),
            r is Ok,
            r->Ok_0.operation == OperationType::TagCreate,
            r->Ok_0.tag_type == config.tag_type,
            checked_ref_name(tag_name@, "tag"@) matches Err(m) ==> !r->Ok_0.success
                && r->Ok_0.message@ == m && r->Ok_0.tag_name@ == tag_name@ && r->Ok_0.target_commit is None,
            checked_ref_name(tag_name@, "tag"@) is Ok ==> (checked_commit_id(target_commit@) matches Err(m)
                ==> !r->Ok_0.success && r->Ok_0.message@ == m && r->Ok_0.tag_name@ == tag_name@
                && r->Ok_0.target_commit is None),
            (checked_ref_name(tag_name@, "tag"@), checked_commit_id(target_commit@)) matches (Ok(n), Ok(c))
                ==> r->Ok_0.tag_name@ == n && opt_chars(r->Ok_0.target_commit) == Some(c) && (if r->Ok_0.success {
                r->Ok_0.message@ == "Successfully created tag"@
            } else {
                tag_create_failure(r->Ok_0.message@, n, config.force_overwrite, config.tag_type)
            }),
    {
        let result = match self.tag_manager.create_tag(tag_name, target_commit, config) {
            Ok(x) => x,
            Err(e) => {
                return Err(e);
            },
        };
        merge_last(&mut self.operation_history, self.tag_manager.get_operation_history());
        assert(merged(old(self).history(), self.tag_manager.history(), self.history()));
        Ok(result)
    }

    /// Deletes a tag (see [`TagManager::delete_tag`]) and takes over the tag
    /// history's last record.
    pub fn delete_tag(&mut self, tag_name: &str, force: bool) -> (r: Result<TagOperationResult, String>)
        ensures
            r matches Ok(_) ==> exists|sub: Seq<OperationRecord>| merged(old(self).history(), sub, final(self).history()),
            r is Err ==> final(self).history() == old(self).history(),
            r is Ok,
            r->Ok_0.operation == OperationType::TagDelete,
            checked_ref_name(tag_name@, "tag"@) matches Err(m) ==> !r->Ok_0.success
                && r->Ok_0.message@ == m && r->Ok_0.tag_name@ == tag_name@
                && r->Ok_0.target_commit is None && r->Ok_0.tag_type == TagType::Lightweight,
            checked_ref_name(tag_name@, "tag"@) matches Ok(n) ==> r->Ok_0.tag_name@ == n && (if r->Ok_0.success {
                &&& r->Ok_0.message@ == "Successfully deleted tag"@
                &&& r->Ok_0.target_commit is Some
                &&& (force || !is_protected(n))
            } else {
                ||| r->Ok_0.message@ == "Tag '"@ + n + "' not found"@
                ||| (!force && is_protected(n) && r->Ok_0.message@ == "Tag '"@ + n + "' is protected. Use force to delete."@)
                ||| starts_with(r->Ok_0.message@, "Tag reference not found: "@)
                ||| starts_with(r->Ok_0.message@, "Failed to delete tag: "@)
            }),
    {
        let result = match self.tag_manager.delete_tag(tag_name, force) {
            Ok(x) => x,
            Err(e) => {
                return Err(e);
            },
        };
        merge_last(&mut self.operation_history, self.tag_manager.get_operation_history());
        assert(merged(old(self).history(), self.tag_manager.history(), self.history()));
        Ok(result)
    }

    /// What is known of a tag.
    pub fn get_tag_info(&self, tag_name: &str) -> (r: Result<TagInfo, String>)
        ensures
            r matches Ok(i) ==> i.name@ == tag_name@,
    {
        self.tag_manager.get_tag_info(tag_name)
    }

    /// Tags that pass a filter.
    pub fn list_tags(&self, filter: Option<TagFilterOptions>) -> (r: Result<Vec<TagInfo>, String>)
        ensures
            r matches Ok(v) ==> ({
                let f = filter_or_default(filter);
                &&& forall|i: int| 0 <= i < v@.len() ==> passes_filter(#[trigger] v@[i], f)
                &&& exists|now: i64| tags_sorted(v@, f.sort_by, f.sort_order, now)
                &&& (f.limit matches Some(l) ==> v@.len() <= l)
            }),
    {
        self.tag_manager.list_tags(filter)
    }

    /// Tags that point at a commit.
    pub fn get_tags_for_commit(&self, commit_id: &str) -> (r: Result<Vec<TagInfo>, String>)
        ensures
            !(1 <= commit_id@.len() <= 40 && all_hex(commit_id@)) ==> r is Err,
            r matches Ok(v) ==> forall|i: int| 0 <= i < v@.len() ==> points_at_or_annotated(#[trigger] v@[i], commit_id@),
    {
        self.tag_manager.get_tags_for_commit(commit_id)
    }

    /// Cherry-picks a commit (see [`CommitOperations::cherry_pick`]) and
    /// takes over the commit history's last record.
    pub fn cherry_pick(&mut self, commit_id: &str, config: CherryPickConfig) -> (r: Result<CommitOperationResult, String>)
        ensures
            r matches Ok(_) ==> exists|sub: Seq<OperationRecord>| merged(old(self).history(), sub, final(self).history()),
            r is Err ==> final(self).history() == old(self).history(),
            checked_commit_id(commit_id@) matches Err(m) ==> r is Err && r->Err_0@ == m,
            checked_commit_id(commit_id@) matches Ok(c) ==> (r matches Ok(x) ==> {
                &&& x.operation == OperationType::CommitCherryPick
                &&& opt_chars(x.commit_id) == Some(c)
                &&& x.reverted_files@.len() == 0
                &&& x.new_commit_id is Some ==> !config.no_commit && x.conflicts@.len() == 0
                &&& if x.success {
                    &&& x.message@ == "Cherry-pick successful"@
                    &&& (!config.no_commit && x.conflicts@.len() == 0 ==> x.new_commit_id is Some)
                } else {
                    &&& x.new_commit_id is None
                    &&& (starts_with(x.message@, "Cherry-pick failed: "@) || starts_with(x.message@, "Failed to create commit: "@))
                }
            }),
    {
        let result = match self.commit_operations.cherry_pick(commit_id, config) {
            Ok(x) => x,
            Err(e) => {
                return Err(e);
            },
        };
        merge_last(&mut self.operation_history, self.commit_operations.get_operation_history());
        assert(merged(old(self).history(), self.commit_operations.history(), self.history()));
        Ok(result)
    }

    /// Reverts a commit (see [`CommitOperations::revert`]) and takes over
    /// the commit history's last record.
    pub fn revert(&mut self, commit_id: &str, config: RevertConfig) -> (r: Result<CommitOperationResult, String>)
        ensures
            r matches Ok(_) ==> exists|sub: Seq<OperationRecord>| merged(old(self).history(), sub, final(self).history()),
            r is Err ==> final(self).history() == old(self).history(),
            checked_commit_id(commit_id@) matches Err(m) ==> r matches Ok(x) && !x.success
                && x.message@ == m && x.commit_id is None && x.operation == OperationType::CommitRevert,
            checked_commit_id(commit_id@) matches Ok(c) ==> (r matches Ok(x) ==> {
                &&& x.operation == OperationType::CommitRevert
                &&& opt_chars(x.commit_id) == Some(c)
                &&& x.new_commit_id is Some ==> !config.no_commit && x.conflicts@.len() == 0
                &&& if x.success {
                    &&& x.message@ == "Revert successful"@
                    &&& (!config.no_commit && x.conflicts@.len() == 0 ==> x.new_commit_id is Some)
                } else {
                    &&& x.new_commit_id is None
                    &&& (starts_with(x.message@, "Invalid commit OID: "@) || starts_with(x.message@, "Commit not found: "@)
                        || starts_with(x.message@, "Revert failed: "@) || starts_with(x.message@, "Failed to create commit: "@))
                }
            }),
    {
        let result = match self.commit_operations.revert(commit_id, config) {
            Ok(x) => x,
            Err(e) => {
                return Err(e);
            },
        };
        merge_last(&mut self.operation_history, self.commit_operations.get_operation_history());
        assert(merged(old(self).history(), self.commit_operations.history(), self.history()));
        Ok(result)
    }

    /// Resets HEAD (see [`CommitOperations::reset`]) and takes over the
    /// commit history's last record.
    pub fn reset(&mut self, commit_id: &str, config: ResetConfig) -> (r: Result<CommitOperationResult, String>)
        ensures
            r matches Ok(_) ==> exists|sub: Seq<OperationRecord>| merged(old(self).history(), sub, final(self).history()),
            r is Err ==> final(self).history() == old(self).history(),
            checked_commit_id(commit_id@) matches Err(m) ==> r matches Ok(x) && !x.success
                && x.message@ == m && x.commit_id is None && x.operation == OperationType::CommitReset,
            checked_commit_id(commit_id@) matches Ok(c) ==> (r matches Ok(x) ==> {
                &&& x.operation == OperationType::CommitReset
                &&& opt_chars(x.commit_id) == Some(c)
                &&& x.conflicts@.len() == 0 && x.reverted_files@.len() == 0
                &&& if x.success {
                    &&& x.message@ == "Reset successful ("@ + reset_name(config.reset_type) + ")"@
                    &&& opt_chars(x.new_commit_id) == Some(oid_text(c))
                } else {
                    &&& x.new_commit_id is None
                    &&& (starts_with(x.message@, "Invalid commit OID: "@) || starts_with(x.message@, "Commit not found: "@)
                        || starts_with(x.message@, "Reset failed: "@))
                }
            }),
    {
        let result = match self.commit_operations.reset(commit_id, config) {
            Ok(x) => x,
            Err(e) => {
                return Err(e);
            },
        };
        merge_last(&mut self.operation_history, self.commit_operations.get_operation_history());
        assert(merged(old(self).history(), self.commit_operations.history(), self.history()));
        Ok(result)
    }

    /// Whether the working tree or index has changes.
    pub fn has_uncommitted_changes(&self) -> (r: Result<bool, String>) {
        self.commit_operations.has_uncommitted_changes()
    }

    /// The operation in progress in the repository, if any.
    pub fn get_repository_state(&self) -> RepoState {
        self.commit_operations.get_repository_state()
    }

    /// Aborts a cherry-pick or revert in progress and takes over the commit
    /// history's last record.
    pub fn abort_operation(&mut self) -> (r: Result<CommitOperationResult, String>)
        ensures
            r matches Ok(_) ==> exists|sub: Seq<OperationRecord>| merged(old(self).history(), sub, final(self).history()),
            r is Err ==> final(self).history() == old(self).history(),
            r matches Ok(x) ==> (x.success ==> x.message@ == "Cherry-pick aborted"@ || x.message@ == "Revert aborted"@),
            r matches Ok(x) ==> {
                &&& x.commit_id is None
                &&& x.new_commit_id is None
                &&& if x.success {
                    ||| x.operation == OperationType::CommitCherryPick && x.message@ == "Cherry-pick aborted"@
                    ||| x.operation == OperationType::CommitRevert && x.message@ == "Revert aborted"@
                } else {
                    ||| x.operation == OperationType::CommitReset && x.message@ == "No operation to abort"@
                    ||| x.operation == OperationType::CommitCherryPick && starts_with(x.message@, "Failed to abort cherry-pick: "@)
                    ||| x.operation == OperationType::CommitRevert && starts_with(x.message@, "Failed to abort revert: "@)
                }
            },
    {
        let result = match self.commit_operations.abort_operation() {
            Ok(x) => x,
            Err(e) => {
                return Err(e);
            },
        };
        merge_last(&mut self.operation_history, self.commit_operations.get_operation_history());
        assert(merged(old(self).history(), self.commit_operations.history(), self.history()));
        Ok(result)
    }

    /// Saves a stash (see [`StashManager::create_stash`]) and takes over
    /// the stash history's last record.
    pub fn create_stash(&mut self, config: StashCreateConfig) -> (r: Result<StashOperationResult, String>)
        requires
            config.message matches Some(m) ==> (commit_message_problem(m@) is None ==> cut_is_on_boundary(remove_chars(m@, true))),
        ensures
            r matches Ok(_) ==> exists|sub: Seq<OperationRecord>| merged(old(self).history(), sub, final(self).history()),
            r is Err ==> final(self).history() == old(self).history(),
            r matches Ok(x) ==> {
                &&& x.operation == OperationType::StashSave
                &&& if x.success {
                    &&& x.message@ == "Stash created successfully"@
                    &&& x.stash_index == Some(0usize)
                    &&& x.stash_info is Some
                    &&& (config.message matches Some(m) ==> commit_message_problem(m@) is None)
                } else {
                    &&& x.stash_index is None && x.stash_id is None
                    &&& (x.message@ == "No changes to stash"@
                        || (config.message matches Some(m) && commit_message_problem(m@) matches Some(p)
                            && x.message@ == "Invalid stash message: "@ + ("Invalid input: "@ + m@ + " - "@ + p))
                        || starts_with(x.message@, "Failed to create signature: "@)
                        || starts_with(x.message@, "Failed to create stash: "@))
                }
            },
            r matches Ok(x) ==> exists|es: Seq<FileStatus>| {
                &&& (x.message@ == "No changes to stash"@ <==> !has_stashable(es, config))
                &&& (x.success ==> string_views(x.modified_files@) == kept_paths(es, stash_keeps(config)))
            },
    {
        let result = match self.stash_manager.create_stash(config) {
            Ok(x) => x,
            Err(e) => {
                return Err(e);
            },
        };
        merge_last(&mut self.operation_history, self.stash_manager.get_operation_history());
        assert(merged(old(self).history(), self.stash_manager.history(), self.history()));
        Ok(result)
    }

    /// Applies a stash and takes over the stash history's last record.
    pub fn apply_stash(&mut self, stash_index: usize, config: StashApplyConfig) -> (r: Result<StashOperationResult, String>)
        ensures
            r matches Ok(_) ==> exists|sub: Seq<OperationRecord>| merged(old(self).history(), sub, final(self).history()),
            r is Err ==> final(self).history() == old(self).history(),
            r matches Ok(x) ==> {
                &&& x.operation == OperationType::StashApply
                &&& x.stash_index == Some(stash_index)
                &&& if x.success {
                    &&& x.stash_info is Some
                    &&& (x.message@ == "Stash applied successfully"@ || starts_with(x.message@, "Stash applied with "@))
                } else {
                    ||| (exists|n: usize| stash_index >= n && x.message@ == out_of_range_message(stash_index, n))
                    ||| starts_with(x.message@, "Failed to apply stash: "@)
                }
            },
    {
        let result = match self.stash_manager.apply_stash(stash_index, config) {
            Ok(x) => x,
            Err(e) => {
                return Err(e);
            },
        };
        merge_last(&mut self.operation_history, self.stash_manager.get_operation_history());
        assert(merged(old(self).history(), self.stash_manager.history(), self.history()));
        Ok(result)
    }

    /// Pops a stash and takes over the stash history's last record.
    pub fn pop_stash(&mut self, stash_index: usize, config: StashApplyConfig) -> (r: Result<StashOperationResult, String>)
        ensures
            r matches Ok(_) ==> exists|sub: Seq<OperationRecord>| merged(old(self).history(), sub, final(self).history()),
            r is Err ==> final(self).history() == old(self).history(),
            r matches Ok(x) ==> x.operation == OperationType::StashPop && x.stash_index == Some(stash_index),
            r matches Ok(x) ==> (if x.success {
                x.message@ == "Stash popped successfully"@ && x.stash_info is Some
            } else {
                ||| starts_with(x.message@, "Stash applied but failed to remove: "@)
                ||| (exists|n: usize| stash_index >= n && x.message@ == out_of_range_message(stash_index, n))
                ||| starts_with(x.message@, "Failed to apply stash: "@)
            }),
    {
        let result = match self.stash_manager.pop_stash(stash_index, config) {
            Ok(x) => x,
            Err(e) => {
                return Err(e);
            },
        };
        merge_last(&mut self.operation_history, self.stash_manager.get_operation_history());
        assert(merged(old(self).history(), self.stash_manager.history(), self.history()));
        Ok(result)
    }

    /// Drops a stash and takes over the stash history's last record.
    pub fn drop_stash(&mut self, stash_index: usize) -> (r: Result<StashOperationResult, String>)
        ensures
            r matches Ok(_) ==> exists|sub: Seq<OperationRecord>| merged(old(self).history(), sub, final(self).history()),
            r is Err ==> final(self).history() == old(self).history(),
    {
        let result = match self.stash_manager.drop_stash(stash_index) {
            Ok(x) => x,
            Err(e) => {
                return Err(e);
            },
        };
        merge_last(&mut self.operation_history, self.stash_manager.get_operation_history());
        assert(merged(old(self).history(), self.stash_manager.history(), self.history()));
        Ok(result)
    }

    /// Stashes that pass the options.
    pub fn list_stashes(&self, options: Option<StashListOptions>) -> (r: Result<Vec<StashInfo>, String>)
        ensures
            r is Ok,
            r matches Ok(v) ==> (options matches Some(o) ==> (forall|i: int| 0 <= i < v@.len() ==> stash_matches(#[trigger] v@[i], o))
                && (o.limit matches Some(l) ==> v@.len() <= l)),
            r matches Ok(v) ==> forall|i: int| 0 <= i < v@.len() ==> stash_described(#[trigger] v@[i]),
            r matches Ok(v) ==> forall|i: int, j: int| 0 <= i < j < v@.len() ==> v@[i].index < v@[j].index,
    {
        self.stash_manager.list_stashes(options)
    }

    /// What is known of the stash at an index.
    pub fn get_stash_info(&self, stash_index: usize) -> (r: Result<StashInfo, String>)
        ensures
            r matches Ok(s) ==> s.index == stash_index && s.description@ == "Stash@{"@ + decimal(stash_index as nat) + "}: "@ + s.message@
                && opt_chars(s.branch_name) == branch_of_message(s.message@) && s.file_count == 0
                && !s.has_untracked && !s.has_ignored,
    {
        self.stash_manager.get_stash_info_by_index(stash_index)
    }

    /// Drops every stash and takes over the stash history's last record.
    pub fn clear_all_stashes(&mut self) -> (r: Result<StashOperationResult, String>)
        ensures
            r matches Ok(_) ==> exists|sub: Seq<OperationRecord>| merged(old(self).history(), sub, final(self).history()),
            r is Err ==> final(self).history() == old(self).history(),
            r is Ok,
            r matches Ok(x) ==> {
                &&& x.success
                &&& x.operation == OperationType::StashDrop
                &&& x.stash_index is None
                &&& (x.message@ == "No stashes to clear"@ || exists|d: nat| x.message@ == cleared_message(d))
            },
    {
        let result = match self.stash_manager.clear_all_stashes() {
            Ok(x) => x,
            Err(e) => {
                return Err(e);
            },
        };
        merge_last(&mut self.operation_history, self.stash_manager.get_operation_history());
        assert(merged(old(self).history(), self.stash_manager.history(), self.history()));
        Ok(result)
    }

    /// Fetches from a remote and takes over the remote history's last record.
    pub fn fetch(&mut self, remote_name: &str, config: FetchConfig) -> (r: Result<RemoteOperationResult, String>)
        ensures
            r matches Ok(_) ==> exists|sub: Seq<OperationRecord>| merged(old(self).history(), sub, final(self).history()),
            r is Err ==> final(self).history() == old(self).history(),
            checked_ref_name(remote_name@, "remote"@) matches Err(m) ==> r matches Ok(x) && !x.success
                && x.message@ == m && x.remote_name@ == remote_name@ && x.remote_url is None
                && x.transferred_objects is None,
            r matches Ok(x) ==> x.operation == OperationType::RemoteFetch && x.updated_refs@.len() == 0,
            checked_ref_name(remote_name@, "remote"@) matches Ok(n) ==> (r matches Ok(x) ==> {
                &&& x.remote_name@ == n
                &&& if x.success {
                    &&& x.transferred_objects is Some
                    &&& x.message@ == "Fetch completed: "@ + decimal(x.transferred_objects->0.received_objects as nat) + " objects received"@
                } else {
                    &&& x.transferred_objects is None
                    &&& (x.message@ == "Fetch failed"@ || starts_with(x.message@, "Remote not found: "@))
                }
            }),
    {
        let result = match self.remote_manager.fetch(remote_name, config) {
            Ok(x) => x,
            Err(e) => {
                return Err(e);
            },
        };
        merge_last(&mut self.operation_history, self.remote_manager.get_operation_history());
        assert(merged(old(self).history(), self.remote_manager.history(), self.history()));
        Ok(result)
    }

    /// Pushes to a remote and takes over the remote history's last record.
    pub fn push(&mut self, remote_name: &str, config: PushConfig) -> (r: Result<RemoteOperationResult, String>)
        ensures
            r matches Ok(_) ==> exists|sub: Seq<OperationRecord>| merged(old(self).history(), sub, final(self).history()),
            r is Err ==> final(self).history() == old(self).history(),
            r is Ok,
            r->Ok_0.operation == OperationType::RemotePush,
            r->Ok_0.updated_refs@.len() == 0,
            checked_ref_name(remote_name@, "remote"@) matches Err(m) ==> !r->Ok_0.success
                && r->Ok_0.message@ == m && r->Ok_0.remote_name@ == remote_name@,
            checked_ref_name(remote_name@, "remote"@) matches Ok(n) ==> r->Ok_0.remote_name@ == n && (if r->Ok_0.success {
                if config.dry_run {
                    r->Ok_0.message@ == "Dry run: nothing pushed"@
                } else {
                    r->Ok_0.message@ == "Push completed: 0 refs updated"@
                }
            } else {
                ||| r->Ok_0.message@ == "Push failed"@
                ||| r->Ok_0.message@ == "No refspecs to push"@ && config.refspecs@.len() == 0
                ||| starts_with(r->Ok_0.message@, "Remote not found: "@)
            }),
    {
        let result = match self.remote_manager.push(remote_name, config) {
            Ok(x) => x,
            Err(e) => {
                return Err(e);
            },
        };
        merge_last(&mut self.operation_history, self.remote_manager.get_operation_history());
        assert(merged(old(self).history(), self.remote_manager.history(), self.history()));
        Ok(result)
    }

    /// Pulls from a remote and takes over the remote history's last record.
    pub fn pull(&mut self, remote_name: &str, config: PullConfig) -> (r: Result<RemoteOperationResult, String>)
        ensures
            r matches Ok(_) ==> exists|sub: Seq<OperationRecord>| merged(old(self).history(), sub, final(self).history()),
            r is Err ==> final(self).history() == old(self).history(),
            r matches Ok(x) ==> x.operation == OperationType::RemotePull,
            r matches Ok(x) ==> (x.success ==> x.message@ == "Already up to date"@),
            checked_ref_name(remote_name@, "remote"@) matches Err(m) ==> r matches Ok(x) && !x.success
                && x.message@ == m && x.remote_name@ == remote_name@ && x.remote_url is None,
            checked_ref_name(remote_name@, "remote"@) matches Ok(n) ==> (r matches Ok(x) ==> {
                &&& x.remote_name@ == n
                &&& if x.success {
                    x.transferred_objects is Some
                } else {
                    &&& x.transferred_objects is None
                    &&& (x.message@ == "Fetch failed"@ || starts_with(x.message@, "Remote not found: "@))
                }
            }),
    {
        let result = match self.remote_manager.pull(remote_name, config) {
            Ok(x) => x,
            Err(e) => {
                return Err(e);
            },
        };
        merge_last(&mut self.operation_history, self.remote_manager.get_operation_history());
        assert(merged(old(self).history(), self.remote_manager.history(), self.history()));
        Ok(result)
    }

    /// The configured remotes.
    pub fn list_remotes(&self) -> (r: Result<Vec<RemoteInfo>, String>)
        ensures
            r matches Ok(v) ==> forall|i: int| 0 <= i < v@.len() ==> unprobed(#[trigger] v@[i]),
    {
        self.remote_manager.list_remotes()
    }

    /// What is configured for a remote.
    pub fn get_remote_info(&self, remote_name: &str) -> (r: Result<RemoteInfo, String>)
        ensures
            r matches Ok(i) ==> i.name@ == remote_name@ && !i.is_connected && i.last_fetch is None
                && i.branch_tracking@.len() == 0,
    {
        self.remote_manager.get_remote_info(remote_name)
    }

    /// Adds a remote and takes over the remote history's last record.
    pub fn add_remote(&mut self, name: &str, url: &str) -> (r: Result<RemoteOperationResult, String>)
        ensures
            r matches Ok(_) ==> exists|sub: Seq<OperationRecord>| merged(old(self).history(), sub, final(self).history()),
            r is Err ==> final(self).history() == old(self).history(),
            checked_ref_name(name@, "remote"@) matches Err(m) ==> r matches Ok(x) && !x.success && x.message@ == m,
            checked_ref_name(name@, "remote"@) is Ok ==> (sanitized_url(url@) matches Err(m) ==> r matches Err(e) && e@ == m),
            r matches Ok(x) ==> x.operation == OperationType::RemoteFetch,
            r matches Ok(x) ==> (x.success ==> x.message@ == "Remote added successfully"@),
    {
        let result = match self.remote_manager.add_remote(name, url) {
            Ok(x) => x,
            Err(e) => {
                return Err(e);
            },
        };
        merge_last(&mut self.operation_history, self.remote_manager.get_operation_history());
        assert(merged(old(self).history(), self.remote_manager.history(), self.history()));
        Ok(result)
    }

    /// Removes a remote and takes over the remote history's last record.
    pub fn remove_remote(&mut self, name: &str) -> (r: Result<RemoteOperationResult, String>)
        ensures
            r matches Ok(_) ==> exists|sub: Seq<OperationRecord>| merged(old(self).history(), sub, final(self).history()),
            r is Err ==> final(self).history() == old(self).history(),
            r is Ok,
            r->Ok_0.operation == OperationType::RemoteFetch,
            checked_ref_name(name@, "remote"@) matches Err(m) ==> !r->Ok_0.success && r->Ok_0.message@ == m,
            checked_ref_name(name@, "remote"@) matches Ok(n) ==> r->Ok_0.remote_name@ == n && (if r->Ok_0.success {
                r->Ok_0.message@ == "Remote removed successfully"@
            } else {
                starts_with(r->Ok_0.message@, "Failed to remove remote: "@)
            }),
    {
        let result = match self.remote_manager.remove_remote(name) {
            Ok(x) => x,
            Err(e) => {
                return Err(e);
            },
        };
        merge_last(&mut self.operation_history, self.remote_manager.get_operation_history());
        assert(merged(old(self).history(), self.remote_manager.history(), self.history()));
        Ok(result)
    }

    /// Uses `provider` for the credentials of later remote operations.
    pub fn set_credentials_provider(&mut self, provider: Box<dyn CredentialsProvider>)
        ensures
            final(self).history() == old(self).history(),
            final(self).has_credentials_provider(),
            final(self).has_progress_handler() == old(self).has_progress_handler(),
    {
        self.remote_manager.set_credentials_provider(provider);
    }

    /// Reports the progress of later remote operations to `handler`.
    pub fn set_progress_handler(&mut self, handler: Box<dyn ProgressHandler>)
        ensures
            final(self).history() == old(self).history(),
            final(self).has_progress_handler(),
            final(self).has_credentials_provider() == old(self).has_credentials_provider(),
    {
        self.remote_manager.set_progress_handler(handler);
    }
}

} // verus!
