//! Loading the history from HEAD in batches.

use vstd::prelude::*;
use crate::libgit::{commit_facts, git_dir, walk_from_head, walk_next};
use crate::models::GitCommit;
use crate::repository::{error_text, GitRepository};

verus! {

/// Number of commits one batch loads at most.
pub const BATCH_SIZE: usize = 50;

/// Number of commits a stream loads at most when no limit is given.
pub const DEFAULT_STREAM_LIMIT: usize = 10000;

/// Commits of the history from HEAD, newest first, loaded a batch at a
/// time up to a limit.
pub struct CommitStream {
    commits: Vec<GitCommit>,
    repo: GitRepository,
    limit: usize,
    loaded: usize,
    batch_size: usize,
    is_complete: bool,
    next_skip: usize,
}

/// Commits handed out together.
pub struct CommitBatch {
    pub commits: Vec<GitCommit>,
    pub has_more: bool,
    pub total_processed: usize,
}

impl CommitStream {
    /// The commits loaded and not yet handed out, oldest load first.
    pub closed spec fn queued(&self) -> Seq<GitCommit> {
        self.commits@
    }

    /// Number of commits loaded so far.
    pub closed spec fn loaded_spec(&self) -> nat {
        self.loaded as nat
    }

    /// Most commits the stream loads.
    pub closed spec fn limit_spec(&self) -> nat {
        self.limit as nat
    }

    /// Whether the stream loads no more commits.
    pub closed spec fn complete_spec(&self) -> bool {
        self.is_complete
    }

    /// Number of history entries passed over so far.
    pub closed spec fn position(&self) -> nat {
        self.next_skip as nat
    }

    /// The stream's invariant: it never loads more than its limit, nor
    /// more than it passed over, and a batch holds at most `BATCH_SIZE`.
    pub closed spec fn wf(&self) -> bool {
        &&& self.loaded <= self.limit
        &&& self.loaded <= self.next_skip
        &&& self.batch_size == BATCH_SIZE
    }

    /// A well-formed stream never has loaded more commits than its limit.
    pub proof fn lemma_loaded_within_limit(&self)
        requires
            self.wf(),
        ensures
            self.loaded_spec() <= self.limit_spec(),
    {
    }

    /// What is left to hand out, at most: each commit still to load
    /// counts more than a whole batch in the queue.
    pub open spec fn pending(&self) -> nat {
        ((self.limit_spec() - self.loaded_spec()) * (BATCH_SIZE + 1) + self.queued().len()) as nat
    }

    /// Each commit handed out brings the stream nearer its end.
    pub proof fn lemma_handing_out_progresses(before: CommitStream, after: CommitStream, handed: bool)
        requires
            before.wf(),
            after.wf(),
            after.limit_spec() == before.limit_spec(),
            after.loaded_spec() >= before.loaded_spec(),
            before.queued().len() > 0 ==> after.queued().len() + 1 == before.queued().len()
                && after.loaded_spec() == before.loaded_spec(),
            handed && before.queued().len() == 0 ==> after.loaded_spec() > before.loaded_spec()
                && after.queued().len() + 1 == after.loaded_spec() - before.loaded_spec()
                && after.loaded_spec() - before.loaded_spec() <= BATCH_SIZE,
            handed || before.queued().len() > 0,
        ensures
            after.pending() < before.pending(),
    {
        let d = after.loaded_spec() - before.loaded_spec();
        assert((before.limit_spec() - before.loaded_spec()) * (BATCH_SIZE + 1) == (after.limit_spec()
            - after.loaded_spec()) * (BATCH_SIZE + 1) + d * (BATCH_SIZE + 1)) by (nonlinear_arith)
            requires
                after.limit_spec() == before.limit_spec(),
                d == after.loaded_spec() - before.loaded_spec();
        if before.queued().len() == 0 {
            assert(d * (BATCH_SIZE + 1) >= d) by (nonlinear_arith)
                requires
                    d >= 1;
        }
    }

    /// A stream over `repo` that loads at most `limit` commits
    /// (`DEFAULT_STREAM_LIMIT` when none is given).
    pub fn new(repo: GitRepository, limit: Option<usize>) -> (r: Result<CommitStream, String>)
        ensures
            r matches Ok(s) ==> {
                &&& s.wf()
                &&& s.queued().len() == 0
                &&& s.loaded_spec() == 0
                &&& s.position() == 0
                &&& !s.complete_spec()
                &&& s.limit_spec() == (match limit {
                    Some(l) => l,
                    None => DEFAULT_STREAM_LIMIT,
                })
            },
            r is Ok,
    {
        let limit = match limit {
            Some(l) => l,
            None => DEFAULT_STREAM_LIMIT,
        };
        Ok(CommitStream {
            commits: Vec::new(),
            repo,
            limit,
            loaded: 0,
            batch_size: BATCH_SIZE,
            is_complete: false,
            next_skip: 0,
        })
    }

    /// Whether the stream loads no more commits.
    pub fn is_complete(&self) -> (r: bool)
        ensures
            r == self.complete_spec(),
    {
        self.is_complete
    }

    /// Number of commits loaded so far.
    pub fn loaded_count(&self) -> (r: usize)
        ensures
            r == self.loaded_spec(),
    {
        self.loaded
    }

    /// Number of commits loaded and not yet handed out.
    pub fn queued_count(&self) -> (r: usize)
        ensures
            r == self.queued().len(),
    {
        self.commits.len()
    }

    /// Loads the next batch: passes over the entries already seen, then
    /// queues the commits of up to `BATCH_SIZE` further entries while the
    /// limit allows, passing over entries that cannot be read. The stream
    /// is complete when the history ends before the position, when the
    /// batch came out short, or when the limit is reached.
    fn load_batch(&mut self) -> (r: Result<(), String>)
        requires
            old(self).wf(),
        ensures
            final(self).wf(),
            final(self).limit_spec() == old(self).limit_spec(),
            old(self).complete_spec() ==> *final(self) == *old(self),
            old(self).complete_spec() ==> r is Ok,
            r is Err ==> *final(self) == *old(self),
            final(self).queued().subrange(0, old(self).queued().len() as int) == old(self).queued(),
            final(self).queued().len() - old(self).queued().len() == final(self).loaded_spec() - old(self).loaded_spec(),
            final(self).loaded_spec() - old(self).loaded_spec() <= BATCH_SIZE,
            final(self).position() >= old(self).position(),
            old(self).complete_spec() ==> final(self).complete_spec(),
            r is Ok && !old(self).complete_spec() && final(self).loaded_spec() - old(self).loaded_spec() < BATCH_SIZE
                ==> final(self).complete_spec(),
            r is Ok && final(self).loaded_spec() == final(self).limit_spec() ==> final(self).complete_spec(),
    {
        if self.is_complete {
            return Ok(());
        }
        let mut walk = match walk_from_head(self.repo.repo()) {
            Ok(w) => w,
            Err(e) => {
                return Err(error_text(&e));
            },
        };
        let mut skipped: usize = 0;
        while skipped < self.next_skip
            invariant
                skipped <= self.next_skip,
                *self == *old(self),
                old(self).wf(),
            decreases self.next_skip - skipped,
        {
            if walk_next(&mut walk).is_none() {
                self.is_complete = true;
                return Ok(());
            }
            skipped = skipped + 1;
        }
        let ghost start = *self;
        let mut batch_loaded: usize = 0;
        loop
            invariant
                self.wf(),
                self.limit == start.limit,
                self.repo == start.repo,
                !self.is_complete,
                batch_loaded <= self.batch_size,
                self.loaded == start.loaded + batch_loaded,
                self.next_skip >= start.next_skip,
                self.commits@.len() == start.commits@.len() + batch_loaded,
                self.commits@.subrange(0, start.commits@.len() as int) == start.commits@,
                start.wf(),
                !start.is_complete,
            decreases usize::MAX - self.next_skip,
        {
            let next = walk_next(&mut walk);
            if self.loaded >= self.limit || batch_loaded >= self.batch_size {
                break;
            }
            if self.next_skip == usize::MAX {
                break;
            }
            match next {
                None => {
                    break;
                },
                Some(Ok(id)) => {
                    match commit_facts(self.repo.repo(), id.as_str()) {
                        Ok(f) => match GitCommit::from_facts(f) {
                            Ok(c) => {
                                let ghost before = self.commits@;
                                self.commits.push(c);
                                assert(self.commits@.subrange(0, start.commits@.len() as int)
                                    =~= before.subrange(0, start.commits@.len() as int));
                                batch_loaded = batch_loaded + 1;
                                self.loaded = self.loaded + 1;
                                self.next_skip = self.next_skip + 1;
                            },
                            Err(_) => {
                                self.next_skip = self.next_skip + 1;
                            },
                        },
                        Err(_) => {
                            self.next_skip = self.next_skip + 1;
                        },
                    }
                },
                Some(Err(_)) => {
                    self.next_skip = self.next_skip + 1;
                },
            }
        }
        if batch_loaded < self.batch_size || self.loaded >= self.limit {
            self.is_complete = true;
        }
        Ok(())
    }

    /// The next commit: the front of the queue when there is one;
    /// otherwise, unless the stream is complete, the front of a freshly
    /// loaded batch. `None` when the stream is complete and the queue is
    /// empty, or when loading fails or brings nothing.
    pub fn try_next(&mut self) -> (r: Option<Result<GitCommit, String>>)
        requires
            old(self).wf(),
        ensures
            final(self).wf(),
            final(self).limit_spec() == old(self).limit_spec(),
            old(self).queued().len() > 0 ==> {
                &&& r == Some(Ok::<GitCommit, String>(old(self).queued()[0]))
                &&& final(self).queued() == old(self).queued().drop_first()
                &&& final(self).loaded_spec() == old(self).loaded_spec()
                &&& final(self).complete_spec() == old(self).complete_spec()
            },
            old(self).queued().len() == 0 && old(self).complete_spec() ==> r is None && *final(self) == *old(self),
            r matches Some(x) ==> x is Ok,
            r is Some && old(self).queued().len() == 0 ==> final(self).loaded_spec() > old(self).loaded_spec()
                && final(self).queued().len() + 1 == final(self).loaded_spec() - old(self).loaded_spec(),
            r is None ==> final(self).queued().len() == 0,
            old(self).complete_spec() ==> final(self).complete_spec(),
            final(self).loaded_spec() >= old(self).loaded_spec(),
            final(self).loaded_spec() - old(self).loaded_spec() <= BATCH_SIZE,
    {
        if self.commits.len() > 0 {
            let c = self.commits.remove(0);
            return Some(Ok(c));
        }
        if self.is_complete {
            return None;
        }
        if self.load_batch().is_err() {
            return None;
        }
        if self.commits.len() > 0 {
            let c = self.commits.remove(0);
            Some(Ok(c))
        } else {
            None
        }
    }
}

impl GitRepository {
    /// A commit stream over this repository, opened anew from its `.git`
    /// directory, that loads at most `limit` commits
    /// (`DEFAULT_STREAM_LIMIT` when none is given).
    pub fn get_commits_streaming(&self, limit: Option<usize>) -> (r: Result<CommitStream, String>)
        ensures
            r matches Ok(s) ==> {
                &&& s.wf()
                &&& s.queued().len() == 0
                &&& s.loaded_spec() == 0
                &&& !s.complete_spec()
                &&& s.limit_spec() == (match limit {
                    Some(l) => l,
                    None => DEFAULT_STREAM_LIMIT,
                })
            },
    {
        let path = git_dir(self.repo());
        let repo = match GitRepository::discover(path.as_str()) {
            Ok(r) => r,
            Err(e) => {
                return Err(e);
            },
        };
        CommitStream::new(repo, limit)
    }
}

} // verus!
