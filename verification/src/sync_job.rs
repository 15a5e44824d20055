//! The lock that lets one run be active at a time, and the token that holds it.

use crate::ids::{is_hex_text, new_simple_uuid, now_millis};
use vstd::prelude::*;

verus! {

/// The key under which the token of the running job is kept.
pub const JOB_ID_KEY: &'static str = "job_id";

/// The token of a run: who holds the lock, and since when.
#[derive(Debug)]
pub struct SyncJob {
    pub id: String,
    pub started_at: i64,
}

/// A `SyncJob` over plain text.
#[verifier::ext_equal]
pub struct SyncJobView {
    pub id: Seq<char>,
    pub started_at: i64,
}

impl View for SyncJob {
    type V = SyncJobView;

    open spec fn view(&self) -> SyncJobView {
        SyncJobView { id: self.id@, started_at: self.started_at }
    }
}

impl SyncJob {
    /// A token with a fresh identifier, of 32 hexadecimal digits, stamped with one
    /// reading of the clock.
    pub fn new() -> (job: SyncJob)
        ensures
            is_hex_text(job@.id, 32),
    {
        SyncJob { id: new_simple_uuid(), started_at: now_millis() }
    }
}

/// The lock: the place of the one token. It is free when it holds none.
#[derive(Debug)]
pub struct JobLock {
    job: Option<SyncJob>,
}

impl View for JobLock {
    type V = Option<SyncJobView>;

    closed spec fn view(&self) -> Option<SyncJobView> {
        match self.job {
            Some(job) => Some(job@),
            None => None,
        }
    }
}

/// Taking the lock with `job`: it succeeds on a free lock, which then holds `job`,
/// and fails on a held one, which is left as it is.
pub open spec fn acquired(lock: Option<SyncJobView>, job: SyncJobView) -> (Option<SyncJobView>, bool) {
    match lock {
        Some(_) => (lock, false),
        None => (Some(job), true),
    }
}

/// Giving the lock back: it is free afterwards, and the number says how many
/// tokens were removed, one or none.
pub open spec fn released(lock: Option<SyncJobView>) -> (Option<SyncJobView>, i64) {
    match lock {
        Some(_) => (None, 1i64),
        None => (None, 0i64),
    }
}

impl JobLock {
    /// A free lock.
    pub fn new() -> (lock: JobLock)
        ensures
            lock@ is None,
    {
        JobLock { job: None }
    }

    /// Takes the lock with `job` if it is free, in one step. `true` means that
    /// `job` now holds it, and it alone.
    pub fn try_acquire(&mut self, job: SyncJob) -> (taken: bool)
        ensures
            (final(self)@, taken) == acquired(old(self)@, job@),
    {
        if self.job.is_some() {
            false
        } else {
            self.job = Some(job);
            true
        }
    }

    /// Gives the lock back, whoever holds it.
    pub fn release(&mut self) -> (removed: i64)
        ensures
            (final(self)@, removed) == released(old(self)@),
    {
        let removed: i64 = if self.job.is_some() {
            1
        } else {
            0
        };
        self.job = None;
        removed
    }

    /// Whether the lock is held.
    pub fn is_held(&self) -> (held: bool)
        ensures
            held == (self@ is Some),
    {
        self.job.is_some()
    }
}

/// Takes the lock for a new run, under a fresh token, if no run holds it.
pub fn create_sync_job(lock: &mut JobLock) -> (created: bool)
    ensures
        created == (old(lock)@ is None),
        created ==> final(lock)@ is Some && is_hex_text(final(lock)@->0.id, 32),
        !created ==> final(lock)@ == old(lock)@,
{
    lock.try_acquire(SyncJob::new())
}

/// Removes the token of the running job. The result is the number removed.
pub fn delete_sync_job(lock: &mut JobLock) -> (removed: i64)
    ensures
        (final(lock)@, removed) == released(old(lock)@),
{
    lock.release()
}

/// Whether a run holds the lock.
pub fn check_sync_job_exists(lock: &JobLock) -> (held: bool)
    ensures
        held == (lock@ is Some),
{
    lock.is_held()
}

/// One run at a time. Whatever state the lock is in, of two attempts in a row to
/// take it the second fails and leaves the lock to whoever held it after the
/// first; and once the lock is given back, the next attempt succeeds.
pub proof fn lemma_one_holder(lock: Option<SyncJobView>, first: SyncJobView, second: SyncJobView)
    ensures
        ({
            let after_first = acquired(lock, first).0;
            &&& after_first is Some
            &&& acquired(lock, first).1 ==> after_first == Some(first)
            &&& acquired(after_first, second) == (after_first, false)
            &&& acquired(released(after_first).0, second) == (Some(second), true)
        }),
{
}

} // verus!
