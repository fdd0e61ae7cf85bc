//! The state of the repository browser: the open repository, the loaded
//! and filtered commits, the selection, the references and the views.

use vstd::prelude::*;
use crate::errors::{commit_id_problem, friendly_message_spec, search_query_problem, ErrorRecovery, GitError, InputValidator};
use crate::models::{GitCommit, GitDiff, RepositoryInfo};
use crate::references::{RefManager, RefType, ref_models};
use crate::repository::GitRepository;
use crate::security::{sanitize_commit_id_spec, sanitize_ref_name_spec, sanitize_search_spec, InputSanitizer};
use crate::stream::{CommitStream, BATCH_SIZE};
use crate::text::{append_str, concat, owned, string_eq};
use crate::views::ViewManager;

verus! {

/// Number of commits loaded at most by default.
pub const DEFAULT_COMMIT_LIMIT: usize = 1000;

/// What the browser shows and works on.
pub struct AppState {
    pub repository: Option<GitRepository>,
    pub commits: Vec<GitCommit>,
    pub selected_commit: Option<String>,
    pub selected_files: Vec<String>,
    pub current_diff: Option<GitDiff>,
    pub search_query: String,
    pub filter_author: String,
    pub filter_branch: String,
    pub show_all_branches: bool,
    pub commit_limit: usize,
    pub loading: bool,
    pub error_message: Option<String>,
    pub commit_stream: Option<CommitStream>,
    pub stream_complete: bool,
    pub ref_manager: Option<RefManager>,
    pub selected_branch: Option<String>,
    pub show_remote_branches: bool,
    pub view_manager: Option<ViewManager>,
    pub focus_search: bool,
    pub selected_commit_index: Option<usize>,
    pub show_shortcuts_dialog: bool,
    pub show_about_dialog: bool,
    pub show_settings_dialog: bool,
}

/// Whether `o` holds exactly the text `t`.
pub open spec fn holds_text(o: Option<String>, t: Seq<char>) -> bool {
    o matches Some(s) && s@ == t
}

impl AppState {
    /// The stream and the view manager, when there are, are well formed.
    pub open spec fn wf(&self) -> bool {
        &&& (self.commit_stream matches Some(s) ==> s.wf())
        &&& (self.view_manager matches Some(v) ==> v.wf())
    }

    /// Nothing open, nothing loaded or selected, no dialog shown; at most
    /// `DEFAULT_COMMIT_LIMIT` commits are loaded.
    pub open spec fn is_initial(&self) -> bool {
        &&& self.repository is None
        &&& self.commits@.len() == 0
        &&& self.selected_commit is None
        &&& self.selected_files@.len() == 0
        &&& self.current_diff is None
        &&& self.search_query@.len() == 0
        &&& self.filter_author@.len() == 0
        &&& self.filter_branch@.len() == 0
        &&& !self.show_all_branches
        &&& self.commit_limit == DEFAULT_COMMIT_LIMIT
        &&& !self.loading
        &&& self.error_message is None
        &&& self.commit_stream is None
        &&& !self.stream_complete
        &&& self.ref_manager is None
        &&& self.selected_branch is None
        &&& !self.show_remote_branches
        &&& self.view_manager is None
        &&& !self.focus_search
        &&& self.selected_commit_index is None
        &&& !self.show_shortcuts_dialog
        &&& !self.show_about_dialog
        &&& !self.show_settings_dialog
    }

    /// The initial state.
    pub fn new() -> (r: AppState)
        ensures
            r.is_initial(),
            r.wf(),
    {
        AppState {
            repository: None,
            commits: Vec::new(),
            selected_commit: None,
            selected_files: Vec::new(),
            current_diff: None,
            search_query: String::new(),
            filter_author: String::new(),
            filter_branch: String::new(),
            show_all_branches: false,
            commit_limit: DEFAULT_COMMIT_LIMIT,
            loading: false,
            error_message: None,
            commit_stream: None,
            stream_complete: false,
            ref_manager: None,
            selected_branch: None,
            show_remote_branches: false,
            view_manager: None,
            focus_search: false,
            selected_commit_index: None,
            show_shortcuts_dialog: false,
            show_about_dialog: false,
            show_settings_dialog: false,
        }
    }

    /// Clears the error message.
    pub fn clear_error(&mut self)
        ensures
            *final(self) == (AppState { error_message: None, ..*old(self) }),
    {
        self.error_message = None;
    }
}

impl Default for AppState {
    fn default() -> (r: AppState)
        ensures
            r.is_initial(),
            r.wf(),
    {
        AppState::new()
    }
}

/// The message shown for input that is refused.
pub open spec fn invalid_input_message() -> Seq<char> {
    "Invalid input: Please check your input and try again."@
}

/// The message shown when a search fails.
pub open spec fn failed_search_message() -> Seq<char> {
    "Command '"@ + "search"@ + "' failed. Please check the repository state."@
}

/// Whether `o` holds a text that starts with `p`.
pub open spec fn holds_text_starting(o: Option<String>, p: Seq<char>) -> bool {
    o matches Some(s) && crate::text::starts_with(s@, p)
}

/// Whether the `i`-th commit is the first with id `id`.
pub open spec fn first_with_id(commits: Seq<GitCommit>, id: Seq<char>, i: int) -> bool {
    &&& 0 <= i < commits.len()
    &&& commits[i].id@ == id
    &&& forall|j: int| 0 <= j < i ==> (#[trigger] commits[j]).id@ != id
}

/// The names of references, in order.
pub open spec fn ref_names(v: Seq<crate::references::RefModel>) -> Seq<Seq<char>> {
    v.map_values(|m: crate::references::RefModel| m.name)
}

/// The views of strings, in order.
pub open spec fn texts(v: Seq<String>) -> Seq<Seq<char>> {
    v.map_values(|s: String| s@)
}

impl AppState {
    /// Reloads the newest commits (at most `commit_limit`) when a
    /// repository is open: on success they replace the list and the error
    /// is cleared; on failure the error says so.
    pub fn refresh_commits(&mut self)
        requires
            old(self).wf(),
        ensures
            final(self).wf(),
            old(self).repository is None ==> *final(self) == *old(self),
            old(self).repository is Some ==> {
                ||| (*final(self) == (AppState { commits: final(self).commits, error_message: None, loading: false, ..*old(self) })
                    && final(self).commits@.len() <= old(self).commit_limit)
                ||| (*final(self) == (AppState { error_message: final(self).error_message, loading: false, ..*old(self) })
                    && holds_text_starting(final(self).error_message, "Failed to load commits: "@))
            },
    {
        let fetched = match &self.repository {
            Some(repo) => repo.get_commits(Some(self.commit_limit)),
            None => {
                return;
            },
        };
        self.loading = true;
        match fetched {
            Ok(commits) => {
                self.commits = commits;
                self.error_message = None;
            },
            Err(e) => {
                self.error_message = Some(concat("Failed to load commits: ", e.as_str()));
            },
        }
        self.loading = false;
    }

    /// Shows the diff of a commit: the id is sanitized again, and the first
    /// file diff of the commit becomes the current diff (a commit without
    /// file diffs leaves it as it was).
    pub fn load_commit_diff(&mut self, commit_id: &str)
        requires
            old(self).wf(),
        ensures
            final(self).wf(),
            old(self).repository is None ==> *final(self) == *old(self),
            *final(self) == (AppState { current_diff: final(self).current_diff, error_message: final(self).error_message, ..*old(self) }),
            old(self).repository is Some ==> (sanitize_commit_id_spec(commit_id@) matches Err(m) ==> (
                final(self).current_diff == old(self).current_diff
                && holds_text(final(self).error_message, "Invalid commit ID: "@ + m))),
            old(self).repository is Some && sanitize_commit_id_spec(commit_id@) is Ok ==> (
                (final(self).error_message == old(self).error_message)
                || (final(self).current_diff == old(self).current_diff
                    && holds_text_starting(final(self).error_message, "Failed to load diff: "@))),
    {
        let fetched = match &self.repository {
            Some(repo) => match InputSanitizer::sanitize_commit_id(commit_id) {
                Ok(id) => repo.get_commit_diff_enhanced(id.as_str()),
                Err(e) => {
                    self.error_message = Some(concat("Invalid commit ID: ", e.as_str()));
                    return;
                },
            },
            None => {
                return;
            },
        };
        match fetched {
            Ok(diffs) => {
                let mut diffs = diffs;
                if diffs.len() > 0 {
                    self.current_diff = Some(diffs.remove(0));
                }
            },
            Err(e) => {
                self.error_message = Some(concat("Failed to load diff: ", e.as_str()));
            },
        }
    }

    /// Selects a commit: a refused id only sets the error; an accepted one
    /// is sanitized, selected, and its diff loaded.
    pub fn select_commit(&mut self, commit_id: String)
        requires
            old(self).wf(),
        ensures
            final(self).wf(),
            commit_id_problem(commit_id@) is Some ==> *final(self) == (AppState {
                error_message: final(self).error_message,
                ..*old(self)
            }) && holds_text(final(self).error_message, invalid_input_message()),
            commit_id_problem(commit_id@) is None && sanitize_commit_id_spec(commit_id@) is Err
                ==> *final(self) == (AppState { error_message: final(self).error_message, ..*old(self) })
                && holds_text(final(self).error_message, invalid_input_message()),
            commit_id_problem(commit_id@) is None ==> (sanitize_commit_id_spec(commit_id@) matches Ok(s) ==> {
                &&& holds_text(final(self).selected_commit, s)
                &&& *final(self) == (AppState {
                    selected_commit: final(self).selected_commit,
                    current_diff: final(self).current_diff,
                    error_message: final(self).error_message,
                    ..*old(self)
                })
            }),
    {
        match InputValidator::validate_commit_id(commit_id.as_str()) {
            Ok(()) => {},
            Err(e) => {
                self.error_message = Some(ErrorRecovery::user_friendly_message(&e));
                return;
            },
        }
        match InputSanitizer::sanitize_commit_id(commit_id.as_str()) {
            Ok(id) => {
                self.selected_commit = Some(owned(id.as_str()));
                self.load_commit_diff(id.as_str());
            },
            Err(e) => {
                let ge = GitError::invalid_input(commit_id.as_str(), e.as_str());
                self.error_message = Some(ErrorRecovery::user_friendly_message(&ge));
            },
        }
    }

    /// Searches the loaded history: a refused query only sets the error; an
    /// accepted one is sanitized and kept, and the commits become those of
    /// the newest `commit_limit` whose message, author name or author email
    /// holds it (all of them again when nothing is left of the query).
    pub fn search_commits(&mut self, query: &str)
        requires
            old(self).wf(),
        ensures
            final(self).wf(),
            old(self).repository is None ==> *final(self) == *old(self),
            old(self).repository is Some && search_query_problem(query@) is Some ==> *final(self) == (AppState {
                error_message: final(self).error_message,
                ..*old(self)
            }) && holds_text(final(self).error_message, invalid_input_message()),
            old(self).repository is Some && search_query_problem(query@) is None && sanitize_search_spec(query@) is Err
                ==> *final(self) == (AppState { error_message: final(self).error_message, ..*old(self) })
                && holds_text(final(self).error_message, invalid_input_message()),
            old(self).repository is Some && search_query_problem(query@) is None ==> (sanitize_search_spec(query@) matches Ok(q) ==> {
                &&& final(self).search_query@ == q
                &&& !final(self).loading
                &&& *final(self) == (AppState {
                    search_query: final(self).search_query,
                    commits: final(self).commits,
                    error_message: final(self).error_message,
                    loading: false,
                    ..*old(self)
                })
                &&& (final(self).error_message is None && final(self).commits@.len() <= old(self).commit_limit)
                    || (final(self).commits == old(self).commits && q.len() > 0
                        && holds_text(final(self).error_message, failed_search_message()))
                    || (final(self).commits == old(self).commits && q.len() == 0
                        && holds_text_starting(final(self).error_message, "Failed to load commits: "@))
            }),
    {
        if self.repository.is_none() {
            return;
        }
        match InputValidator::validate_search_query(query) {
            Ok(()) => {},
            Err(e) => {
                self.error_message = Some(ErrorRecovery::user_friendly_message(&e));
                return;
            },
        }
        match InputSanitizer::sanitize_search_query(query) {
            Ok(q) => {
                let empty = q.as_str().unicode_len() == 0;
                self.search_query = q;
                if empty {
                    self.refresh_commits();
                } else {
                    self.loading = true;
                    let found = match &self.repository {
                        Some(repo) => repo.search_commits(self.search_query.as_str(), Some(self.commit_limit)),
                        None => Ok(Vec::new()),
                    };
                    match found {
                        Ok(commits) => {
                            self.commits = commits;
                            self.error_message = None;
                        },
                        Err(e) => {
                            let ge = GitError::command_failed("search", e.as_str());
                            self.error_message = Some(ErrorRecovery::user_friendly_message(&ge));
                        },
                    }
                    self.loading = false;
                }
            },
            Err(e) => {
                let ge = GitError::invalid_input(query, e.as_str());
                self.error_message = Some(ErrorRecovery::user_friendly_message(&ge));
            },
        }
    }

    /// The selected commit among the loaded ones: the first with its id.
    pub fn get_selected_commit(&self) -> (r: Option<&GitCommit>)
        ensures
            match r {
                Some(c) => self.selected_commit is Some && exists|i: int|
                    #[trigger] first_with_id(self.commits@, self.selected_commit->0@, i) && self.commits@[i] == *c,
                None => self.selected_commit is None || (self.selected_commit matches Some(id)
                    && forall|j: int| 0 <= j < self.commits@.len() ==> (#[trigger] self.commits@[j]).id@ != id@),
            },
    {
        match &self.selected_commit {
            Some(id) => {
                let mut i: usize = 0;
                while i < self.commits.len()
                    invariant
                        i <= self.commits@.len(),
                        self.selected_commit == Some(*id),
                        forall|j: int| 0 <= j < i ==> (#[trigger] self.commits@[j]).id@ != id@,
                    decreases self.commits@.len() - i,
                {
                    if string_eq(self.commits[i].id.as_str(), id.as_str()) {
                        let c = &self.commits[i];
                        assert(first_with_id(self.commits@, id@, i as int));
                        assert(*c == self.commits@[i as int]);
                        assert(self.selected_commit->0@ == id@);
                        assert(first_with_id(self.commits@, self.selected_commit->0@, i as int));
                        assert(exists|k: int| #[trigger] first_with_id(self.commits@, self.selected_commit->0@, k) && self.commits@[k] == *c);
                        return Some(c);
                    }
                    i = i + 1;
                }
                None
            },
            None => None,
        }
    }

    /// Whether a repository is open.
    pub fn has_repository(&self) -> (r: bool)
        ensures
            r == self.repository is Some,
    {
        self.repository.is_some()
    }

    /// The summary of the open repository.
    pub fn repository_info(&self) -> (r: Option<&RepositoryInfo>)
        ensures
            match self.repository {
                Some(repo) => r matches Some(i) && *i == repo.summary(),
                None => r is None,
            },
    {
        match &self.repository {
            Some(repo) => Some(repo.info()),
            None => None,
        }
    }

    /// Whether commits are being streamed in.
    pub fn is_streaming(&self) -> (r: bool)
        ensures
            r == self.commit_stream is Some,
    {
        self.commit_stream.is_some()
    }

    /// The checked-out branch, as remembered.
    pub fn get_current_branch(&self) -> (r: Option<&String>)
        ensures
            r == match &self.selected_branch {
                Some(b) => Some(b),
                None => None::<&String>,
            },
    {
        match &self.selected_branch {
            Some(b) => Some(b),
            None => None,
        }
    }

    /// Whether HEAD is detached (false before references are loaded).
    pub fn is_detached_head(&self) -> (r: bool)
        ensures
            r == match self.ref_manager {
                Some(rm) => rm@.head matches Some(h) && h.ref_type == RefType::Head,
                None => false,
            },
    {
        match &self.ref_manager {
            Some(rm) => rm.is_detached_head(),
            None => false,
        }
    }
}

/// The names of references, copied.
fn names_of(refs: &[crate::references::GitRef]) -> (r: Vec<String>)
    ensures
        texts(r@) == ref_names(ref_models(refs@)),
{
    let mut out: Vec<String> = Vec::new();
    let mut i: usize = 0;
    while i < refs.len()
        invariant
            i <= refs@.len(),
            texts(out@) == ref_names(ref_models(refs@)).take(i as int),
        decreases refs@.len() - i,
    {
        let ghost before = out@;
        out.push(owned(refs[i].name.as_str()));
        assert(ref_models(refs@)[i as int] == refs@[i as int]@);
        assert(texts(out@) =~= texts(before).push(refs@[i as int].name@));
        assert(ref_names(ref_models(refs@)).take(i as int + 1) =~= ref_names(ref_models(refs@)).take(i as int).push(refs@[i as int].name@));
        assert(texts(out@) =~= ref_names(ref_models(refs@)).take(i as int + 1));
        i = i + 1;
    }
    assert(ref_names(ref_models(refs@)).take(refs@.len() as int) =~= ref_names(ref_models(refs@)));
    out
}

impl AppState {
    /// The local branch names, then the remote ones when they are shown;
    /// none before references are loaded.
    pub fn get_branches(&self) -> (r: Vec<String>)
        ensures
            texts(r@) == match self.ref_manager {
                Some(rm) => if self.show_remote_branches {
                    ref_names(rm@.branches) + ref_names(rm@.remotes)
                } else {
                    ref_names(rm@.branches)
                },
                None => Seq::<Seq<char>>::empty(),
            },
    {
        match &self.ref_manager {
            Some(rm) => {
                let mut out = names_of(rm.get_local_branches());
                if self.show_remote_branches {
                    let ghost a = texts(out@);
                    let mut more = names_of(rm.get_remote_branches());
                    let ghost b = texts(more@);
                    out.append(&mut more);
                    assert(texts(out@) =~= a + b);
                }
                out
            },
            None => {
                let out: Vec<String> = Vec::new();
                assert(texts(out@) =~= Seq::<Seq<char>>::empty());
                out
            },
        }
    }

    /// The tag names; none before references are loaded.
    pub fn get_tags(&self) -> (r: Vec<String>)
        ensures
            texts(r@) == match self.ref_manager {
                Some(rm) => ref_names(rm@.tags),
                None => Seq::<Seq<char>>::empty(),
            },
    {
        match &self.ref_manager {
            Some(rm) => names_of(rm.get_tags()),
            None => {
                let out: Vec<String> = Vec::new();
                assert(texts(out@) =~= Seq::<Seq<char>>::empty());
                out
            },
        }
    }

    /// The names of the references that point at `commit_sha`; none before
    /// references are loaded.
    pub fn get_refs_for_commit(&self, commit_sha: &str) -> (r: Vec<String>)
        ensures
            texts(r@) == match self.ref_manager {
                Some(rm) => ref_names(rm@.refs.filter(|m: crate::references::RefModel| m.target == commit_sha@)),
                None => Seq::<Seq<char>>::empty(),
            },
    {
        match &self.ref_manager {
            Some(rm) => {
                let refs = rm.get_refs_for_commit(commit_sha);
                let ghost want = ref_names(rm@.refs.filter(|m: crate::references::RefModel| m.target == commit_sha@));
                let mut out: Vec<String> = Vec::new();
                let mut i: usize = 0;
                while i < refs.len()
                    invariant
                        i <= refs@.len(),
                        crate::references::borrowed_models(refs@) == rm@.refs.filter(|m: crate::references::RefModel| m.target == commit_sha@),
                        want == ref_names(rm@.refs.filter(|m: crate::references::RefModel| m.target == commit_sha@)),
                        texts(out@) == want.take(i as int),
                    decreases refs@.len() - i,
                {
                    assert(crate::references::borrowed_models(refs@)[i as int] == refs@[i as int]@);
                    let ghost before = out@;
                    out.push(owned(refs[i].name.as_str()));
                    assert(texts(out@) =~= texts(before).push(refs@[i as int].name@));
                    assert(want[i as int] == refs@[i as int].name@);
                    assert(want.take(i as int + 1) =~= want.take(i as int).push(want[i as int]));
                    assert(texts(out@) =~= want.take(i as int + 1));
                    i = i + 1;
                }
                assert(want.take(refs@.len() as int) =~= want);
                out
            },
            None => {
                let out: Vec<String> = Vec::new();
                assert(texts(out@) =~= Seq::<Seq<char>>::empty());
                out
            },
        }
    }
}

/// Whether `o` is a stream that has loaded nothing yet and loads at most
/// `limit` commits.
pub open spec fn fresh_stream(o: Option<CommitStream>, limit: usize) -> bool {
    o matches Some(st) && st.queued().len() == 0 && st.loaded_spec() == 0 && !st.complete_spec()
        && st.limit_spec() == limit
}

/// The commits the browser lists for a state: those of the current view,
/// or the loaded ones when there is no view manager or the current view
/// has none while commits are loaded.
pub open spec fn filtered_commits(s: AppState) -> Seq<GitCommit> {
    match s.view_manager {
        Some(vm) => {
            let cur = vm@.views[vm@.current].commits@;
            if cur.len() == 0 && s.commits@.len() > 0 { s.commits@ } else { cur }
        },
        None => s.commits@,
    }
}

/// The index navigation moves to from `current` by `delta` in a list of
/// `len` commits: backwards it stops at the first commit, forwards at the
/// last.
pub open spec fn navigated_index(current: int, delta: int, len: int) -> int {
    if delta < 0 {
        if current + delta < 0 { 0 } else { current + delta }
    } else {
        if current + delta > len - 1 { len - 1 } else { current + delta }
    }
}

impl AppState {
    /// Starts streaming the history anew when a repository is open: the
    /// list is emptied and a stream of at most `commit_limit` commits is
    /// opened; when it cannot be, the error says so and loading stops.
    pub fn start_streaming_commits(&mut self)
        requires
            old(self).wf(),
        ensures
            final(self).wf(),
            old(self).repository is None ==> *final(self) == *old(self),
            old(self).repository is Some ==> {
                &&& final(self).commits@.len() == 0
                &&& !final(self).stream_complete
                &&& *final(self) == (AppState {
                    commits: final(self).commits,
                    stream_complete: false,
                    loading: final(self).loading,
                    commit_stream: final(self).commit_stream,
                    error_message: final(self).error_message,
                    ..*old(self)
                })
                &&& ((final(self).loading && final(self).error_message == old(self).error_message
                    && fresh_stream(final(self).commit_stream, old(self).commit_limit))
                    || (!final(self).loading && final(self).commit_stream == old(self).commit_stream
                    && holds_text_starting(final(self).error_message, "Failed to start streaming commits: "@)))
            },
    {
        let opened = match &self.repository {
            Some(repo) => repo.get_commits_streaming(Some(self.commit_limit)),
            None => {
                return;
            },
        };
        self.loading = true;
        self.commits = Vec::new();
        self.stream_complete = false;
        match opened {
            Ok(st) => {
                self.commit_stream = Some(st);
            },
            Err(e) => {
                self.error_message = Some(concat("Failed to start streaming commits: ", e.as_str()));
                self.loading = false;
            },
        }
    }

    /// Takes every commit the stream hands out now and appends it to the
    /// list; when the stream is complete afterwards it is closed and
    /// loading stops. Tells whether a commit was appended.
    pub fn poll_commit_stream(&mut self) -> (r: bool)
        requires
            old(self).wf(),
        ensures
            final(self).wf(),
            old(self).commit_stream is None ==> !r && *final(self) == *old(self),
            old(self).commit_stream is Some ==> {
                &&& final(self).commits@.len() >= old(self).commits@.len()
                &&& final(self).commits@.subrange(0, old(self).commits@.len() as int) == old(self).commits@
                &&& r == (final(self).commits@.len() > old(self).commits@.len())
                &&& *final(self) == (AppState {
                    commits: final(self).commits,
                    commit_stream: final(self).commit_stream,
                    stream_complete: final(self).stream_complete,
                    loading: final(self).loading,
                    ..*old(self)
                })
                &&& final(self).commit_stream matches Some(st) ==> st.queued().len() == 0 && !st.complete_spec()
                    && final(self).stream_complete == old(self).stream_complete && final(self).loading == old(self).loading
                &&& final(self).commit_stream is None ==> final(self).stream_complete && !final(self).loading
            },
    {
        let mut taken: Option<CommitStream> = None;
        std::mem::swap(&mut taken, &mut self.commit_stream);
        let mut stream = match taken {
            Some(st) => st,
            None => {
                return false;
            },
        };
        let ghost start = self.commits@;
        let mut progress = false;
        loop
            invariant
                stream.wf(),
                self.commits@.len() >= start.len(),
                self.commits@.subrange(0, start.len() as int) == start,
                progress == (self.commits@.len() > start.len()),
                self.commit_stream is None,
                *self == (AppState { commits: self.commits, ..*old(self) }.commit_stream_cleared()),
            ensures
                stream.wf(),
                stream.queued().len() == 0,
                self.commits@.len() >= start.len(),
                self.commits@.subrange(0, start.len() as int) == start,
                progress == (self.commits@.len() > start.len()),
                *self == (AppState { commits: self.commits, ..*old(self) }.commit_stream_cleared()),
            decreases stream.pending(),
        {
            let ghost before = stream;
            match stream.try_next() {
                Some(Ok(c)) => {
                    let ghost prev = self.commits@;
                    self.commits.push(c);
                    assert(self.commits@.subrange(0, start.len() as int) =~= prev.subrange(0, start.len() as int));
                    progress = true;
                    proof {
                        CommitStream::lemma_handing_out_progresses(before, stream, true);
                    }
                },
                Some(Err(e)) => {
                    self.error_message = Some(concat("Error loading commit: ", e.as_str()));
                    self.loading = false;
                    return false;
                },
                None => {
                    break;
                },
            }
        }
        if stream.is_complete() {
            self.stream_complete = true;
            self.loading = false;
        } else {
            self.commit_stream = Some(stream);
        }
        progress
    }

    /// The state with no stream.
    pub open spec fn commit_stream_cleared(self) -> AppState {
        AppState { commit_stream: None, ..self }
    }
}

impl AppState {
    /// Loads the references of the open repository; the checked-out
    /// branch becomes the selected one. A failure only sets the error.
    pub fn load_references(&mut self)
        requires
            old(self).wf(),
        ensures
            final(self).wf(),
            old(self).repository is None ==> *final(self) == *old(self),
            old(self).repository is Some ==> (*final(self) == (AppState {
                ref_manager: final(self).ref_manager,
                selected_branch: final(self).selected_branch,
                ..*old(self)
            }) && final(self).ref_manager is Some && (match final(self).ref_manager->0@.head {
                Some(h) => if h.ref_type == RefType::LocalBranch {
                    holds_text(final(self).selected_branch, h.name)
                } else {
                    final(self).selected_branch is None
                },
                None => final(self).selected_branch is None,
            })) || (*final(self) == (AppState { error_message: final(self).error_message, ..*old(self) })
                && holds_text_starting(final(self).error_message, "Failed to load references: "@)),
    {
        let loaded = match &self.repository {
            Some(repo) => repo.get_ref_manager(),
            None => {
                return;
            },
        };
        match loaded {
            Ok(rm) => {
                self.selected_branch = rm.get_current_branch();
                self.ref_manager = Some(rm);
            },
            Err(e) => {
                self.error_message = Some(concat("Failed to load references: ", e.as_str()));
            },
        }
    }

    /// Loads the references again.
    pub fn refresh_references(&mut self)
        requires
            old(self).wf(),
        ensures
            final(self).wf(),
            old(self).repository is None ==> *final(self) == *old(self),
            old(self).repository is Some ==> (*final(self) == (AppState {
                ref_manager: final(self).ref_manager,
                selected_branch: final(self).selected_branch,
                ..*old(self)
            }) && final(self).ref_manager is Some) || (*final(self) == (AppState {
                error_message: final(self).error_message,
                ..*old(self)
            }) && holds_text_starting(final(self).error_message, "Failed to load references: "@)),
    {
        self.load_references();
    }

    /// Switches to a local branch when a repository is open: the name is
    /// sanitized; a branch that exists becomes the selected one and the
    /// history is streamed anew; otherwise the error says why.
    pub fn switch_to_branch(&mut self, branch_name: &str)
        requires
            old(self).wf(),
        ensures
            final(self).wf(),
            old(self).repository is None ==> *final(self) == *old(self),
            old(self).repository is Some ==> (sanitize_ref_name_spec(branch_name@) matches Err(m) ==> *final(self) == (AppState {
                error_message: final(self).error_message,
                ..*old(self)
            }) && holds_text(final(self).error_message, "Invalid branch name: "@ + m)),
            old(self).repository is Some && old(self).ref_manager is None ==> (sanitize_ref_name_spec(branch_name@) is Ok
                ==> *final(self) == *old(self)),
            old(self).repository is Some ==> (sanitize_ref_name_spec(branch_name@) matches Ok(n) ==> (
                old(self).ref_manager matches Some(rm) ==> (
                    crate::references::lookup(rm@.refs, "refs/heads/"@ + n) is None ==> *final(self) == (AppState {
                        error_message: final(self).error_message,
                        ..*old(self)
                    }) && holds_text(final(self).error_message, "Branch '"@ + n + "' not found"@)))),
            old(self).repository is Some ==> (sanitize_ref_name_spec(branch_name@) matches Ok(n) ==> (
                old(self).ref_manager matches Some(rm) ==> (
                    crate::references::lookup(rm@.refs, "refs/heads/"@ + n) is Some ==> holds_text(
                        final(self).selected_branch,
                        n,
                    ) && final(self).commits@.len() == 0 && final(self).ref_manager == old(self).ref_manager))),
    {
        if self.repository.is_none() {
            return;
        }
        match InputSanitizer::sanitize_ref_name(branch_name) {
            Ok(name) => {
                let found = match &self.ref_manager {
                    Some(rm) => {
                        let full = concat("refs/heads/", name.as_str());
                        rm.get_ref(full.as_str()).is_some()
                    },
                    None => {
                        return;
                    },
                };
                if found {
                    self.selected_branch = Some(name);
                    self.start_streaming_commits();
                } else {
                    let mut m = concat("Branch '", name.as_str());
                    append_str(&mut m, "' not found");
                    self.error_message = Some(m);
                }
            },
            Err(e) => {
                self.error_message = Some(concat("Invalid branch name: ", e.as_str()));
            },
        }
    }

    /// Sets up the views when a repository is open: a fresh view manager
    /// whose current view takes in `fetched`, what `git rev-list` gave for
    /// its arguments (see [`ViewManager::update_current_view_with`]), at
    /// time `now`. A failure also sets the error.
    pub fn initialize_views(&mut self, fetched: Result<Vec<GitCommit>, String>, now: u64)
        requires
            old(self).wf(),
        ensures
            final(self).wf(),
            old(self).repository is None ==> *final(self) == *old(self),
            old(self).repository is Some ==> {
                &&& final(self).view_manager matches Some(vm) && vm@.current == "Default"@
                &&& (match fetched {
                    Ok(_) => *final(self) == (AppState { view_manager: final(self).view_manager, ..*old(self) }),
                    Err(e) => *final(self) == (AppState {
                        view_manager: final(self).view_manager,
                        error_message: final(self).error_message,
                        ..*old(self)
                    }) && holds_text(final(self).error_message, "Failed to initialize views: "@ + e@),
                })
            },
    {
        if self.repository.is_none() {
            return;
        }
        let mut vm = ViewManager::new();
        match vm.update_current_view_with(fetched, now) {
            Ok(()) => {},
            Err(e) => {
                self.error_message = Some(concat("Failed to initialize views: ", e.as_str()));
            },
        }
        self.view_manager = Some(vm);
    }

    /// Loads `fetched`, what `git rev-list` gave for the current view's
    /// arguments, into the current view at time `now`, when a repository
    /// is open and views are set up. A failure also sets the error.
    pub fn update_current_view(&mut self, fetched: Result<Vec<GitCommit>, String>, now: u64)
        requires
            old(self).wf(),
        ensures
            final(self).wf(),
            old(self).repository is None || old(self).view_manager is None ==> *final(self) == *old(self),
            old(self).repository is Some && old(self).view_manager is Some ==> {
                &&& final(self).view_manager matches Some(vm) && old(self).view_manager matches Some(ovm)
                    && vm@.current == ovm@.current && vm@.views.dom() == ovm@.views.dom()
                    && crate::views::applied_view(vm@.views[ovm@.current], ovm@.views[ovm@.current], fetched, now)
                &&& (match fetched {
                    Ok(_) => *final(self) == (AppState { view_manager: final(self).view_manager, ..*old(self) }),
                    Err(e) => *final(self) == (AppState {
                        view_manager: final(self).view_manager,
                        error_message: final(self).error_message,
                        ..*old(self)
                    }) && holds_text(final(self).error_message, "Failed to update view: "@ + e@),
                })
            },
    {
        if self.repository.is_none() {
            return;
        }
        let mut taken: Option<ViewManager> = None;
        std::mem::swap(&mut taken, &mut self.view_manager);
        let mut vm = match taken {
            Some(v) => v,
            None => {
                return;
            },
        };
        match vm.update_current_view_with(fetched, now) {
            Ok(()) => {},
            Err(e) => {
                self.error_message = Some(concat("Failed to update view: ", e.as_str()));
            },
        }
        self.view_manager = Some(vm);
    }

    /// The commits the browser lists (see [`filtered_commits`]).
    pub fn get_filtered_commits(&self) -> (r: &Vec<GitCommit>)
        requires
            self.wf(),
        ensures
            r@ == filtered_commits(*self),
    {
        match &self.view_manager {
            Some(vm) => {
                let cur = vm.get_current_view().unwrap();
                if cur.commits.len() == 0 && self.commits.len() > 0 {
                    &self.commits
                } else {
                    &cur.commits
                }
            },
            None => &self.commits,
        }
    }

    /// Moves the selection by `delta` listed commits (see
    /// [`navigated_index`], from the selected index or the first commit)
    /// and selects the commit there; nothing happens when nothing is
    /// listed or the index falls outside the list.
    pub fn navigate_commits(&mut self, delta: i32)
        requires
            old(self).wf(),
        ensures
            final(self).wf(),
            filtered_commits(*old(self)).len() == 0 ==> *final(self) == *old(self),
            ({
                let len = filtered_commits(*old(self)).len() as int;
                let cur = match old(self).selected_commit_index {
                    Some(k) => k as int,
                    None => 0,
                };
                let k = navigated_index(cur, delta as int, len);
                len > 0 && k < len ==> final(self).selected_commit_index == Some(k as usize)
                    && final(self).commits == old(self).commits
                    && final(self).view_manager == old(self).view_manager
                    && final(self).repository == old(self).repository
            }),
            ({
                let len = filtered_commits(*old(self)).len() as int;
                let cur = match old(self).selected_commit_index {
                    Some(k) => k as int,
                    None => 0,
                };
                len > 0 && navigated_index(cur, delta as int, len) >= len ==> *final(self) == *old(self)
            }),
    {
        let len = self.get_filtered_commits().len();
        if len == 0 {
            return;
        }
        let current: usize = match self.selected_commit_index {
            Some(k) => k,
            None => 0,
        };
        let new_index: usize = if delta < 0 {
            let back: u64 = (-(delta as i64)) as u64;
            if (current as u64) < back {
                0
            } else {
                (current as u64 - back) as usize
            }
        } else {
            let fwd: usize = delta as usize;
            if current > len - 1 || fwd > len - 1 - current {
                len - 1
            } else {
                current + fwd
            }
        };
        if new_index < len {
            let id = owned(self.get_filtered_commits()[new_index].id.as_str());
            self.selected_commit_index = Some(new_index);
            self.select_commit(id);
        }
    }

    /// Selects the first listed commit, if any.
    pub fn navigate_to_first_commit(&mut self)
        requires
            old(self).wf(),
        ensures
            final(self).wf(),
            filtered_commits(*old(self)).len() == 0 ==> *final(self) == *old(self),
            filtered_commits(*old(self)).len() > 0 ==> final(self).selected_commit_index == Some(0usize)
                && final(self).commits == old(self).commits,
    {
        let len = self.get_filtered_commits().len();
        if len > 0 {
            let id = owned(self.get_filtered_commits()[0].id.as_str());
            self.selected_commit_index = Some(0);
            self.select_commit(id);
        }
    }

    /// Selects the last listed commit, if any.
    pub fn navigate_to_last_commit(&mut self)
        requires
            old(self).wf(),
        ensures
            final(self).wf(),
            filtered_commits(*old(self)).len() == 0 ==> *final(self) == *old(self),
            filtered_commits(*old(self)).len() > 0 ==> final(self).selected_commit_index == Some(
                (filtered_commits(*old(self)).len() - 1) as usize,
            ) && final(self).commits == old(self).commits,
    {
        let len = self.get_filtered_commits().len();
        if len > 0 {
            let last = len - 1;
            let id = owned(self.get_filtered_commits()[last].id.as_str());
            self.selected_commit_index = Some(last);
            self.select_commit(id);
        }
    }

    /// Opens a repository: its references are loaded, its views set up
    /// with `fetched` (what `git rev-list` gave for the default view) at
    /// time `now`, and its history streamed.
    pub fn set_repository(&mut self, repo: GitRepository, fetched: Result<Vec<GitCommit>, String>, now: u64)
        requires
            old(self).wf(),
        ensures
            final(self).wf(),
            final(self).repository == Some(repo),
            final(self).view_manager is Some,
            final(self).commits@.len() == 0,
            !final(self).stream_complete,
    {
        self.repository = Some(repo);
        self.load_references();
        self.initialize_views(fetched, now);
        self.start_streaming_commits();
    }
}

} // verus!
