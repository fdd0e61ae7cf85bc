//! Remote operations: fetch, push, pull, and the configured remotes.

use vstd::prelude::*;
use crate::libgit::{
    add_remote, delete_remote, head_facts, reference_target, remote_facts, remote_fetch,
    remote_names, remote_push, reopen, transfer_callbacks, TransferCounts,
};
use crate::operations::{
    appended, check_ref_name, checked_ref_name, now_seconds, record_capped, OperationRecord,
    OperationType, HISTORY_LIMIT,
};
use crate::repository::{error_text, present, GitRepository};
use crate::text::{
    append_str, byte_len, chars_of, concat, concat3, decimal, is_control, owned, starts_with,
    string_of, usize_to_string,
};
use crate::views::{opt_chars, string_views};

verus! {

/// Outcome of a remote operation.
#[derive(Debug)]
pub struct RemoteOperationResult {
    pub success: bool,
    pub operation: OperationType,
    pub remote_name: String,
    pub remote_url: Option<String>,
    pub message: String,
    pub transferred_objects: Option<TransferStats>,
    pub updated_refs: Vec<RefUpdate>,
    pub conflicts: Vec<String>,
    pub authentication_required: bool,
}

/// Counters of a transfer.
#[derive(Debug, Clone)]
pub struct TransferStats {
    pub total_objects: usize,
    pub indexed_objects: usize,
    pub received_objects: usize,
    pub local_objects: usize,
    pub total_deltas: usize,
    pub indexed_deltas: usize,
    pub received_bytes: usize,
}

/// A reference a transfer changed.
#[derive(Debug, Clone)]
pub struct RefUpdate {
    pub ref_name: String,
    pub old_oid: Option<String>,
    pub new_oid: String,
    pub update_type: RefUpdateType,
    pub force: bool,
}

/// How a reference changed.
#[derive(Debug, Clone, Copy, PartialEq, Eq, Structural)]
pub enum RefUpdateType {
    FastForward,
    Forced,
    Created,
    Deleted,
    Rejected,
    UpToDate,
}

/// A configured remote.
#[derive(Debug, Clone)]
pub struct RemoteInfo {
    pub name: String,
    pub url: String,
    pub push_url: Option<String>,
    pub fetch_refspecs: Vec<String>,
    pub push_refspecs: Vec<String>,
    pub is_connected: bool,
    /// Seconds since the Unix epoch.
    pub last_fetch: Option<i64>,
    pub branch_tracking: Vec<BranchTracking>,
}

/// How a local branch relates to its upstream.
#[derive(Debug, Clone)]
pub struct BranchTracking {
    pub local_branch: String,
    pub remote_branch: String,
    pub ahead: usize,
    pub behind: usize,
    pub status: TrackingStatus,
}

/// Relation of a branch to its upstream.
#[derive(Debug, Clone, Copy, PartialEq, Eq, Structural)]
pub enum TrackingStatus {
    UpToDate,
    Ahead,
    Behind,
    Diverged,
    NoUpstream,
}

/// How tags are fetched.
#[derive(Debug, Clone, Copy, PartialEq, Eq, Structural)]
pub enum FetchTagsMode {
    Auto,
    All,
    /// No tags (named `None` where the name is free).
    NoTags,
}

/// How a fetch is made.
#[derive(Debug, Clone)]
pub struct FetchConfig {
    /// Refspecs to fetch; the remote's own when empty.
    pub refspecs: Vec<String>,
    pub prune: bool,
    pub prune_tags: bool,
    pub tags: FetchTagsMode,
    pub depth: Option<u32>,
    pub unshallow: bool,
}

impl Default for FetchConfig {
    fn default() -> (r: FetchConfig)
        ensures
            r.refspecs@.len() == 0 && !r.prune && !r.prune_tags,
            r.tags == FetchTagsMode::Auto && r.depth is None && !r.unshallow,
    {
        FetchConfig {
            refspecs: Vec::new(),
            prune: false,
            prune_tags: false,
            tags: FetchTagsMode::Auto,
            depth: None,
            unshallow: false,
        }
    }
}

/// How a push is made.
#[derive(Debug, Clone)]
pub struct PushConfig {
    /// Refspecs to push; the current branch when empty.
    pub refspecs: Vec<String>,
    pub force: bool,
    pub atomic: bool,
    pub signed: bool,
    pub push_options: Vec<String>,
    pub dry_run: bool,
}

impl Default for PushConfig {
    fn default() -> (r: PushConfig)
        ensures
            r.refspecs@.len() == 0 && !r.force && !r.atomic && !r.signed,
            r.push_options@.len() == 0 && !r.dry_run,
    {
        PushConfig {
            refspecs: Vec::new(),
            force: false,
            atomic: false,
            signed: false,
            push_options: Vec::new(),
            dry_run: false,
        }
    }
}

/// How fetched changes are integrated.
#[derive(Debug, Clone, Copy, PartialEq, Eq, Structural)]
pub enum PullStrategy {
    Merge,
    Rebase,
    FastForward,
}

/// How a pull is made.
#[derive(Debug, Clone)]
pub struct PullConfig {
    pub fetch_config: FetchConfig,
    pub merge_strategy: PullStrategy,
    pub rebase: bool,
    pub fast_forward_only: bool,
    pub auto_stash: bool,
}

impl Default for PullConfig {
    fn default() -> (r: PullConfig)
        ensures
            r.fetch_config.refspecs@.len() == 0 && !r.fetch_config.prune,
            r.merge_strategy == PullStrategy::Merge && !r.rebase && !r.fast_forward_only && !r.auto_stash,
    {
        PullConfig {
            fetch_config: FetchConfig::default(),
            merge_strategy: PullStrategy::Merge,
            rebase: false,
            fast_forward_only: false,
            auto_stash: false,
        }
    }
}

/// SSH key credentials.
#[derive(Debug, Clone)]
pub struct SshCredentials {
    pub username: String,
    pub public_key_path: String,
    pub private_key_path: String,
    pub passphrase: Option<String>,
}

/// User name and password credentials.
#[derive(Debug, Clone)]
pub struct UserPasswordCredentials {
    pub username: String,
    pub password: String,
}

/// Credentials for a remote.
#[derive(Debug, Clone)]
pub enum Credentials {
    SshKey(SshCredentials),
    UserPassword(UserPasswordCredentials),
    Token(String),
    Default,
}

/// Supplies credentials for remote operations; implemented by users of the
/// library.
pub trait CredentialsProvider: Send + Sync {
    fn get_credentials(&self, url: &str, username: Option<&str>) -> Result<Credentials, String>;

    fn get_ssh_key(&self, username: &str) -> Result<SshCredentials, String>;

    fn get_user_password(&self, url: &str, username: &str) -> Result<UserPasswordCredentials, String>;
}

/// Stage of a remote operation.
#[derive(Debug, Clone, Copy, PartialEq, Eq, Structural)]
pub enum ProgressStage {
    Connecting,
    Negotiating,
    Downloading,
    Indexing,
    CheckingOut,
    Pushing,
    Finished,
    Error,
}

/// A progress report.
#[derive(Debug, Clone)]
pub struct ProgressUpdate {
    pub stage: ProgressStage,
    pub current: usize,
    pub total: usize,
    pub message: String,
    pub bytes_transferred: Option<usize>,
}

/// Receives progress of remote operations and may cancel them; implemented
/// by users of the library.
pub trait ProgressHandler: Send + Sync {
    fn update_progress(&mut self, progress: &ProgressUpdate);

    fn set_stage(&mut self, stage: ProgressStage);

    fn is_cancelled(&self) -> bool;
}

/// The credentials the provider gives for `url`, or the default ones when
/// it fails.
pub fn credentials_for(provider: &dyn CredentialsProvider, url: &str, username: Option<&str>) -> (r: Credentials) {
    match provider.get_credentials(url, username) {
        Ok(c) => c,
        Err(_) => Credentials::Default,
    }
}

/// The report of downloading `received` of `total` objects.
pub fn download_progress(received: usize, total: usize, bytes: usize) -> (r: ProgressUpdate)
    ensures
        r.stage == ProgressStage::Downloading,
        r.current == received && r.total == total,
        r.bytes_transferred == Some(bytes),
        r.message@ == "Downloading objects: "@ + decimal(received as nat) + "/"@ + decimal(total as nat),
{
    let mut m = concat3("Downloading objects: ", usize_to_string(received).as_str(), "/");
    append_str(&mut m, usize_to_string(total).as_str());
    ProgressUpdate {
        stage: ProgressStage::Downloading,
        current: received,
        total,
        message: m,
        bytes_transferred: Some(bytes),
    }
}

/// Reports download progress to the handler; whether to go on (the handler
/// has not cancelled).
pub fn report_download(handler: &mut dyn ProgressHandler, received: usize, total: usize, bytes: usize) -> bool {
    let update = download_progress(received, total, bytes);
    handler.update_progress(&update);
    !handler.is_cancelled()
}

/// `s` without control characters other than tab.
pub open spec fn drop_controls_but_tab(s: Seq<char>) -> Seq<char>
    decreases s.len(),
{
    if s.len() == 0 {
        Seq::empty()
    } else {
        let rest = drop_controls_but_tab(s.drop_last());
        if is_control(s.last()) && s.last() != '\t' {
            rest
        } else {
            rest.push(s.last())
        }
    }
}

/// What sanitizing a remote URL gives.
pub open spec fn sanitized_url(url: Seq<char>) -> Result<Seq<char>, Seq<char>> {
    if byte_len(url) == 0 || byte_len(url) > 2048 {
        Err("Invalid URL length"@)
    } else {
        Ok(drop_controls_but_tab(url))
    }
}

/// Sanitizes a remote URL: between one and 2048 bytes, control characters
/// other than tab removed.
pub fn sanitize_url(url: &str) -> (r: Result<String, String>)
    ensures
        crate::text::result_view(r) == sanitized_url(url@),
{
    if url.len() == 0 || url.len() > 2048 {
        return Err(owned("Invalid URL length"));
    }
    let v = chars_of(url);
    let mut out: Vec<char> = Vec::new();
    let mut i: usize = 0;
    while i < v.len()
        invariant
            i <= v.len(),
            v@ == url@,
            out@ == drop_controls_but_tab(v@.take(i as int)),
        decreases v.len() - i,
    {
        assert(v@.take(i as int + 1).drop_last() =~= v@.take(i as int));
        let c = v[i];
        if !(crate::text::char_is_control(c) && c != '\t') {
            out.push(c);
        }
        i = i + 1;
    }
    assert(v@.take(v.len() as int) =~= v@);
    Ok(string_of(&out))
}

/// Validates and sanitizes a remote name.
pub fn validate_and_sanitize_remote_name(name: &str) -> (r: Result<String, String>)
    ensures
        crate::text::result_view(r) == checked_ref_name(name@, "remote"@),
{
    check_ref_name(name, "remote")
}

/// A remote result that reports a failure.
fn remote_failure(op: OperationType, name: String, url: Option<String>, message: String) -> (r: RemoteOperationResult)
    ensures
        !r.success && r.operation == op && r.remote_name == name && r.remote_url == url && r.message == message,
        r.transferred_objects is None && r.updated_refs@.len() == 0 && r.conflicts@.len() == 0,
        !r.authentication_required,
{
    RemoteOperationResult {
        success: false,
        operation: op,
        remote_name: name,
        remote_url: url,
        message,
        transferred_objects: None,
        updated_refs: Vec::new(),
        conflicts: Vec::new(),
        authentication_required: false,
    }
}

fn stats_of(c: TransferCounts) -> (r: TransferStats)
    ensures
        r.received_objects == c.received_objects,
{
    TransferStats {
        total_objects: c.total_objects,
        indexed_objects: c.indexed_objects,
        received_objects: c.received_objects,
        local_objects: c.local_objects,
        total_deltas: c.total_deltas,
        indexed_deltas: c.indexed_deltas,
        received_bytes: c.received_bytes,
    }
}

/// The refspecs a fetch asks for: those configured, or, when none is, the
/// fetch refspecs configured for the remote.
pub open spec fn fetch_refspec_views(configured: Seq<Seq<char>>, listed: Seq<Seq<char>>) -> Seq<Seq<char>> {
    if configured.len() > 0 {
        configured
    } else {
        listed
    }
}

/// The refspecs a fetch asks for (see [`fetch_refspec_views`]), given the
/// configured ones and the remote's own.
pub fn fetch_refspecs(configured: &Vec<String>, listed: Vec<String>) -> (r: Vec<String>)
    ensures
        string_views(r@) == fetch_refspec_views(string_views(configured@), string_views(listed@)),
{
    if configured.len() > 0 {
        copy_strings(configured)
    } else {
        assert(string_views(configured@).len() == 0);
        listed
    }
}

/// The refspecs a push sends: those configured, or, when none is, the
/// current branch pushed to the branch of the same name.
pub open spec fn push_refspec_views(configured: Seq<Seq<char>>, head_branch: Option<Seq<char>>) -> Seq<Seq<char>> {
    if configured.len() > 0 {
        configured
    } else {
        match head_branch {
            Some(b) => seq!["refs/heads/"@ + b + ":refs/heads/"@ + b],
            None => Seq::empty(),
        }
    }
}

/// The refspecs a push sends (see [`push_refspec_views`]), given the
/// configured ones and the branch HEAD is on.
pub fn push_refspecs(configured: &Vec<String>, head_branch: &Option<String>) -> (r: Vec<String>)
    ensures
        string_views(r@) == push_refspec_views(string_views(configured@), opt_chars(*head_branch)),
{
    if configured.len() > 0 {
        return copy_strings(configured);
    }
    let mut v: Vec<String> = Vec::new();
    match head_branch {
        Some(b) => {
            let mut spec = concat3("refs/heads/", b.as_str(), ":refs/heads/");
            append_str(&mut spec, b.as_str());
            v.push(spec);
            assert(string_views(v@) =~= seq![spec@]);
        },
        None => {},
    }
    assert(string_views(configured@).len() == 0);
    v
}

fn copy_strings(v: &Vec<String>) -> (r: Vec<String>)
    ensures
        string_views(r@) == string_views(v@),
{
    let mut out: Vec<String> = Vec::new();
    let mut i: usize = 0;
    while i < v.len()
        invariant
            i <= v.len(),
            string_views(out@) == string_views(v@).take(i as int),
        decreases v.len() - i,
    {
        let ghost before = string_views(out@);
        out.push(owned(v[i].as_str()));
        assert(string_views(out@) =~= before.push(v@[i as int]@));
        assert(string_views(v@).take(i as int + 1) =~= string_views(v@).take(i as int).push(v@[i as int]@));
        i = i + 1;
    }
    assert(string_views(v@).take(v@.len() as int) =~= string_views(v@));
    out
}

/// Remote operations on a repository, with a history of those performed.
pub struct RemoteManager {
    repo: git2::Repository,
    operation_history: Vec<OperationRecord>,
    credentials_provider: Option<Box<dyn CredentialsProvider>>,
    progress_handler: Option<Box<dyn ProgressHandler>>,
}

/// A remote as listed without contacting it: not known to be connected,
/// never fetched, tracking no branch.
pub open spec fn unprobed(i: RemoteInfo) -> bool {
    !i.is_connected && i.last_fetch is None && i.branch_tracking@.len() == 0
}

impl RemoteManager {
    /// The operations performed, oldest first.
    pub closed spec fn history(&self) -> Seq<OperationRecord> {
        self.operation_history@
    }

    /// Whether later operations ask a provider for credentials.
    pub closed spec fn has_credentials_provider(&self) -> bool {
        self.credentials_provider is Some
    }

    /// Whether later operations report their progress to a handler.
    pub closed spec fn has_progress_handler(&self) -> bool {
        self.progress_handler is Some
    }

    /// A manager on the repository of `git_repo`, with an empty history and
    /// neither credentials nor progress handler.
    pub fn new(git_repo: &GitRepository) -> (r: Result<RemoteManager, String>)
        ensures
            r matches Ok(m) ==> m.history().len() == 0 && !m.has_credentials_provider()
                && !m.has_progress_handler(),
    {
        match reopen(git_repo.get_repository()) {
            Ok(repo) => Ok(RemoteManager {
                repo,
                operation_history: Vec::new(),
                credentials_provider: None,
                progress_handler: None,
            }),
            Err(e) => Err(error_text(&e)),
        }
    }

    /// Uses `provider` for the credentials of later operations.
    pub fn set_credentials_provider(&mut self, provider: Box<dyn CredentialsProvider>)
        ensures
            final(self).history() == old(self).history(),
            final(self).has_credentials_provider(),
            final(self).has_progress_handler() == old(self).has_progress_handler(),
    {
        self.credentials_provider = Some(provider);
    }

    /// Reports the progress of later operations to `handler`.
    pub fn set_progress_handler(&mut self, handler: Box<dyn ProgressHandler>)
        ensures
            final(self).history() == old(self).history(),
            final(self).has_progress_handler(),
            final(self).has_credentials_provider() == old(self).has_credentials_provider(),
    {
        self.progress_handler = Some(handler);
    }

    /// The operations performed, oldest first.
    pub fn get_operation_history(&self) -> (r: &[OperationRecord])
        ensures
            r@ == self.history(),
    {
        self.operation_history.as_slice()
    }

    fn record(&mut self, op: OperationType, description: String, original: Option<String>, new_state: Option<String>)
        ensures
            final(self).history() == appended(old(self).history(), final(self).history().last(), HISTORY_LIMIT as nat),
            final(self).history().last().operation_type == op,
            final(self).history().last().description == description,
            final(self).history().last().original_state == original,
            final(self).history().last().new_state == new_state,
            final(self).history().last().affected_refs@.len() == 0,
    {
        let record = OperationRecord {
            operation_type: op,
            timestamp: now_seconds(),
            description,
            original_state: original,
            new_state,
            affected_refs: Vec::new(),
        };
        record_capped(&mut self.operation_history, record, HISTORY_LIMIT);
    }

    /// Fetches from the remote `remote_name` (its own refspecs unless the
    /// configuration names some). An invalid name, an unknown remote and a
    /// failed fetch are reported in the result; only a success is recorded.
    pub fn fetch(&mut self, remote_name: &str, config: FetchConfig) -> (r: Result<RemoteOperationResult, String>)
        ensures
            r is Err ==> final(self).history() == old(self).history(),
            checked_ref_name(remote_name@, "remote"@) matches Err(m) ==> r matches Ok(x) && !x.success
                && x.message@ == m && x.remote_name@ == remote_name@ && x.remote_url is None
                && x.transferred_objects is None && final(self).history() == old(self).history(),
            r matches Ok(x) ==> x.operation == OperationType::RemoteFetch && x.updated_refs@.len() == 0,
            checked_ref_name(remote_name@, "remote"@) matches Ok(n) ==> (r matches Ok(x) ==> {
                &&& x.remote_name@ == n
                &&& if x.success {
                    &&& x.transferred_objects is Some
                    &&& x.message@ == "Fetch completed: "@ + decimal(x.transferred_objects->0.received_objects as nat) + " objects received"@
                    &&& final(self).history() == appended(old(self).history(), final(self).history().last(), HISTORY_LIMIT as nat)
                    &&& final(self).history().last().operation_type == OperationType::RemoteFetch
                    &&& final(self).history().last().description@ == "Fetched from remote '"@ + n + "' (0 refs updated)"@
                    &&& opt_chars(final(self).history().last().new_state) == Some(decimal(x.transferred_objects->0.received_objects as nat) + " objects"@)
                } else {
                    &&& final(self).history() == old(self).history()
                    &&& x.transferred_objects is None
                    &&& (x.message@ == "Fetch failed"@ || starts_with(x.message@, "Remote not found: "@))
                }
            }),
    {
        let name = match check_ref_name(remote_name, "remote") {
            Ok(n) => n,
            Err(m) => {
                return Ok(remote_failure(OperationType::RemoteFetch, owned(remote_name), None, m));
            },
        };
        let facts = match remote_facts(&self.repo, name.as_str()) {
            Ok(f) => f,
            Err(e) => {
                let m = concat("Remote not found: ", error_text(&e).as_str());
                return Ok(remote_failure(OperationType::RemoteFetch, name, None, m));
            },
        };
        let url = match facts.url {
            Some(u) => u,
            None => owned("unknown"),
        };
        let listed = if config.refspecs.len() == 0 {
            match facts.fetch_refspecs {
                Ok(v) => present(v),
                Err(e) => {
                    return Err(error_text(&e));
                },
            }
        } else {
            Vec::new()
        };
        let refspecs = fetch_refspecs(&config.refspecs, listed);
        let callbacks = transfer_callbacks(&self.credentials_provider, &mut self.progress_handler);
        match remote_fetch(&self.repo, name.as_str(), &refspecs, callbacks) {
            Ok(counts) => {
                let stats = stats_of(counts);
                let received = usize_to_string(stats.received_objects);
                let description = concat3("Fetched from remote '", name.as_str(), "' (0 refs updated)");
                let state = concat(received.as_str(), " objects");
                self.record(OperationType::RemoteFetch, description, None, Some(state));
                let message = concat3("Fetch completed: ", received.as_str(), " objects received");
                Ok(RemoteOperationResult {
                    success: true,
                    operation: OperationType::RemoteFetch,
                    remote_name: name,
                    remote_url: Some(url),
                    message,
                    transferred_objects: Some(stats),
                    updated_refs: Vec::new(),
                    conflicts: Vec::new(),
                    authentication_required: false,
                })
            },
            Err(_) => Ok(remote_failure(OperationType::RemoteFetch, name, Some(url), owned("Fetch failed"))),
        }
    }

    /// Pushes to the remote `remote_name` (the current branch unless the
    /// configuration names refspecs). Failures are reported in the result;
    /// only a success is recorded.
    pub fn push(&mut self, remote_name: &str, config: PushConfig) -> (r: Result<RemoteOperationResult, String>)
        ensures
            r is Ok,
            r->Ok_0.operation == OperationType::RemotePush,
            r->Ok_0.updated_refs@.len() == 0,
            checked_ref_name(remote_name@, "remote"@) matches Err(m) ==> !r->Ok_0.success
                && r->Ok_0.message@ == m && r->Ok_0.remote_name@ == remote_name@
                && final(self).history() == old(self).history(),
            checked_ref_name(remote_name@, "remote"@) matches Ok(n) ==> r->Ok_0.remote_name@ == n && (if r->Ok_0.success {
                if config.dry_run {
                    &&& r->Ok_0.message@ == "Dry run: nothing pushed"@
                    &&& final(self).history() == old(self).history()
                } else {
                    &&& r->Ok_0.message@ == "Push completed: 0 refs updated"@
                    &&& final(self).history() == appended(old(self).history(), final(self).history().last(), HISTORY_LIMIT as nat)
                    &&& final(self).history().last().operation_type == OperationType::RemotePush
                    &&& final(self).history().last().description@ == "Pushed to remote '"@ + n + "' (0 refs)"@
                    &&& opt_chars(final(self).history().last().new_state) == Some("0 refs pushed"@)
                }
            } else {
                &&& final(self).history() == old(self).history()
                &&& (r->Ok_0.message@ == "Push failed"@ || starts_with(r->Ok_0.message@, "Remote not found: "@)
                    || (r->Ok_0.message@ == "No refspecs to push"@ && config.refspecs@.len() == 0))
            }),
            config.dry_run ==> final(self).history() == old(self).history(),
    {
        let name = match validate_and_sanitize_remote_name(remote_name) {
            Ok(n) => n,
            Err(m) => {
                return Ok(remote_failure(OperationType::RemotePush, owned(remote_name), None, m));
            },
        };
        let facts = match remote_facts(&self.repo, name.as_str()) {
            Ok(f) => f,
            Err(e) => {
                let m = concat("Remote not found: ", error_text(&e).as_str());
                return Ok(remote_failure(OperationType::RemotePush, name, None, m));
            },
        };
        let url = match facts.url {
            Some(u) => u,
            None => owned("unknown"),
        };
        let head_branch = match head_facts(&self.repo) {
            Ok(h) => h.shorthand,
            Err(_) => None,
        };
        let refspecs = push_refspecs(&config.refspecs, &head_branch);
        if refspecs.len() == 0 {
            return Ok(remote_failure(OperationType::RemotePush, name, Some(url), owned("No refspecs to push")));
        }
        if config.dry_run {
            return Ok(RemoteOperationResult {
                success: true,
                operation: OperationType::RemotePush,
                remote_name: name,
                remote_url: Some(url),
                message: owned("Dry run: nothing pushed"),
                transferred_objects: None,
                updated_refs: Vec::new(),
                conflicts: Vec::new(),
                authentication_required: false,
            });
        }
        let mut no_progress: Option<Box<dyn ProgressHandler>> = None;
        let callbacks = transfer_callbacks(&self.credentials_provider, &mut no_progress);
        match remote_push(&self.repo, name.as_str(), &refspecs, callbacks) {
            Ok(()) => {
                let description = concat3("Pushed to remote '", name.as_str(), "' (0 refs)");
                self.record(OperationType::RemotePush, description, None, Some(owned("0 refs pushed")));
                Ok(RemoteOperationResult {
                    success: true,
                    operation: OperationType::RemotePush,
                    remote_name: name,
                    remote_url: Some(url),
                    message: owned("Push completed: 0 refs updated"),
                    transferred_objects: None,
                    updated_refs: Vec::new(),
                    conflicts: Vec::new(),
                    authentication_required: false,
                })
            },
            Err(_) => Ok(remote_failure(OperationType::RemotePush, name, Some(url), owned("Push failed"))),
        }
    }

    /// The upstream reference of the current branch on `remote_name`, if it
    /// exists.
    fn get_current_branch_upstream(&self, remote_name: &str) -> Option<String> {
        match head_facts(&self.repo) {
            Ok(h) => match &h.shorthand {
                Some(b) => {
                    let mut upstream = concat3("refs/remotes/", remote_name, "/");
                    append_str(&mut upstream, b.as_str());
                    if reference_target(&self.repo, upstream.as_str()).is_ok() {
                        Some(upstream)
                    } else {
                        None
                    }
                },
                None => None,
            },
            Err(_) => None,
        }
    }

    /// Fetches from `remote_name` and integrates what was fetched into the
    /// current branch. A fetch reports no updated references, so a pull
    /// that fetched is already up to date.
    pub fn pull(&mut self, remote_name: &str, config: PullConfig) -> (r: Result<RemoteOperationResult, String>)
        ensures
            r is Err ==> final(self).history() == old(self).history(),
            r matches Ok(x) ==> x.operation == OperationType::RemotePull,
            r matches Ok(x) ==> (x.success ==> x.message@ == "Already up to date"@),
            checked_ref_name(remote_name@, "remote"@) matches Err(m) ==> r matches Ok(x) && !x.success
                && x.message@ == m && x.remote_name@ == remote_name@ && x.remote_url is None
                && final(self).history() == old(self).history(),
            checked_ref_name(remote_name@, "remote"@) matches Ok(n) ==> (r matches Ok(x) ==> {
                &&& x.remote_name@ == n
                &&& if x.success {
                    &&& x.transferred_objects is Some
                    &&& final(self).history() == appended(old(self).history(), final(self).history().last(), HISTORY_LIMIT as nat)
                    &&& final(self).history().last().operation_type == OperationType::RemoteFetch
                    &&& final(self).history().last().description@ == "Fetched from remote '"@ + n + "' (0 refs updated)"@
                } else {
                    &&& final(self).history() == old(self).history()
                    &&& x.transferred_objects is None
                    &&& (x.message@ == "Fetch failed"@ || starts_with(x.message@, "Remote not found: "@))
                }
            }),
    {
        let fetched = match self.fetch(remote_name, config.fetch_config) {
            Ok(f) => f,
            Err(e) => {
                return Err(e);
            },
        };
        if !fetched.success {
            return Ok(RemoteOperationResult { operation: OperationType::RemotePull, ..fetched });
        }
        if fetched.updated_refs.len() == 0 {
            return Ok(RemoteOperationResult {
                operation: OperationType::RemotePull,
                message: owned("Already up to date"),
                ..fetched
            });
        }
        match self.get_current_branch_upstream(remote_name) {
            Some(_) => {},
            None => {
                return Ok(RemoteOperationResult {
                    success: false,
                    operation: OperationType::RemotePull,
                    remote_name: owned(remote_name),
                    remote_url: fetched.remote_url,
                    message: owned("No upstream branch configured for current branch"),
                    transferred_objects: fetched.transferred_objects,
                    updated_refs: fetched.updated_refs,
                    conflicts: Vec::new(),
                    authentication_required: false,
                });
            },
        }
        Ok(RemoteOperationResult { operation: OperationType::RemotePull, ..fetched })
    }

    /// What is configured for the remote `remote_name`.
    pub fn get_remote_info(&self, remote_name: &str) -> (r: Result<RemoteInfo, String>)
        ensures
            r matches Ok(i) ==> i.name@ == remote_name@ && !i.is_connected && i.last_fetch is None
                && i.branch_tracking@.len() == 0,
    {
        let facts = match remote_facts(&self.repo, remote_name) {
            Ok(f) => f,
            Err(e) => {
                return Err(error_text(&e));
            },
        };
        let fetch_refspecs = match facts.fetch_refspecs {
            Ok(v) => present(v),
            Err(e) => {
                return Err(error_text(&e));
            },
        };
        let push_refspecs = match facts.push_refspecs {
            Ok(v) => present(v),
            Err(e) => {
                return Err(error_text(&e));
            },
        };
        let url = match facts.url {
            Some(u) => u,
            None => String::new(),
        };
        Ok(RemoteInfo {
            name: owned(remote_name),
            url,
            push_url: facts.push_url,
            fetch_refspecs,
            push_refspecs,
            is_connected: false,
            last_fetch: None,
            branch_tracking: Vec::new(),
        })
    }

    /// The configured remotes that can be read.
    pub fn list_remotes(&self) -> (r: Result<Vec<RemoteInfo>, String>)
        ensures
            r matches Ok(v) ==> forall|i: int| 0 <= i < v@.len() ==> unprobed(#[trigger] v@[i]),
    {
        let names = match remote_names(&self.repo) {
            Ok(v) => v,
            Err(e) => {
                return Err(error_text(&e));
            },
        };
        let mut out: Vec<RemoteInfo> = Vec::new();
        let mut i: usize = 0;
        while i < names.len()
            invariant
                i <= names.len(),
                forall|j: int| 0 <= j < out@.len() ==> unprobed(#[trigger] out@[j]),
            decreases names.len() - i,
        {
            match &names[i] {
                Some(n) => match self.get_remote_info(n.as_str()) {
                    Ok(info) => out.push(info),
                    Err(_) => {},
                },
                None => {},
            }
            i = i + 1;
        }
        Ok(out)
    }

    /// Adds the remote `name` at `url`. An invalid name is reported in the
    /// result; an invalid URL is an error. Only a success is recorded.
    pub fn add_remote(&mut self, name: &str, url: &str) -> (r: Result<RemoteOperationResult, String>)
        ensures
            r is Err ==> final(self).history() == old(self).history(),
            checked_ref_name(name@, "remote"@) matches Err(m) ==> r matches Ok(x) && !x.success
                && x.message@ == m && final(self).history() == old(self).history(),
            checked_ref_name(name@, "remote"@) is Ok ==> (sanitized_url(url@) matches Err(m) ==> r matches Err(e) && e@ == m),
            r matches Ok(x) ==> x.operation == OperationType::RemoteFetch,
            r matches Ok(x) ==> (x.success ==> x.message@ == "Remote added successfully"@
                && final(self).history() == appended(old(self).history(), final(self).history().last(), HISTORY_LIMIT as nat)),
    {
        match crate::errors::InputValidator::validate_ref_name(name) {
            Err(e) => {
                let mut m = concat3("Invalid ", "remote", " name: ");
                append_str(&mut m, e.message().as_str());
                return Ok(remote_failure(OperationType::RemoteFetch, owned(name), Some(owned(url)), m));
            },
            Ok(()) => {},
        }
        proof {
            crate::operations::lemma_valid_ref_sanitizes(name@);
        }
        let clean_name = match crate::security::InputSanitizer::sanitize_ref_name(name) {
            Ok(n) => n,
            Err(e) => {
                return Err(e);
            },
        };
        let clean_url = match sanitize_url(url) {
            Ok(u) => u,
            Err(e) => {
                return Err(e);
            },
        };
        match add_remote(&self.repo, clean_name.as_str(), clean_url.as_str()) {
            Ok(()) => {
                let mut description = concat3("Added remote '", clean_name.as_str(), "' with URL '");
                append_str(&mut description, clean_url.as_str());
                append_str(&mut description, "'");
                self.record(OperationType::RemoteFetch, description, None, Some(owned(clean_url.as_str())));
                Ok(RemoteOperationResult {
                    success: true,
                    operation: OperationType::RemoteFetch,
                    remote_name: clean_name,
                    remote_url: Some(clean_url),
                    message: owned("Remote added successfully"),
                    transferred_objects: None,
                    updated_refs: Vec::new(),
                    conflicts: Vec::new(),
                    authentication_required: false,
                })
            },
            Err(_) => Ok(remote_failure(OperationType::RemoteFetch, clean_name, Some(clean_url), owned("Failed to add remote"))),
        }
    }

    /// Removes the remote `name`. Failures are reported in the result; only
    /// a success is recorded.
    pub fn remove_remote(&mut self, name: &str) -> (r: Result<RemoteOperationResult, String>)
        ensures
            r is Ok,
            r->Ok_0.operation == OperationType::RemoteFetch,
            checked_ref_name(name@, "remote"@) matches Err(m) ==> !r->Ok_0.success && r->Ok_0.message@ == m
                && final(self).history() == old(self).history(),
            checked_ref_name(name@, "remote"@) matches Ok(n) ==> r->Ok_0.remote_name@ == n && (if r->Ok_0.success {
                &&& r->Ok_0.message@ == "Remote removed successfully"@
                &&& final(self).history() == appended(old(self).history(), final(self).history().last(), HISTORY_LIMIT as nat)
                &&& final(self).history().last().description@ == "Removed remote '"@ + n + "'"@
                &&& opt_chars(final(self).history().last().original_state) == Some(n)
            } else {
                &&& final(self).history() == old(self).history()
                &&& starts_with(r->Ok_0.message@, "Failed to remove remote: "@)
            }),
    {
        let clean = match validate_and_sanitize_remote_name(name) {
            Ok(n) => n,
            Err(m) => {
                return Ok(remote_failure(OperationType::RemoteFetch, owned(name), None, m));
            },
        };
        match delete_remote(&self.repo, clean.as_str()) {
            Ok(()) => {
                let description = concat3("Removed remote '", clean.as_str(), "'");
                self.record(OperationType::RemoteFetch, description, Some(owned(clean.as_str())), None);
                Ok(RemoteOperationResult {
                    success: true,
                    operation: OperationType::RemoteFetch,
                    remote_name: clean,
                    remote_url: None,
                    message: owned("Remote removed successfully"),
                    transferred_objects: None,
                    updated_refs: Vec::new(),
                    conflicts: Vec::new(),
                    authentication_required: false,
                })
            },
            Err(e) => {
                let m = concat("Failed to remove remote: ", error_text(&e).as_str());
                Ok(remote_failure(OperationType::RemoteFetch, clean, None, m))
            },
        }
    }
}

} // verus!
