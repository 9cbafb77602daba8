use vstd::prelude::*;
use crate::job::JobStatus;

verus! {

/// How many times a job is attempted before it is dropped.
pub const MAX_ATTEMPTS: u32 = 3;

/// What a consumer does after an attempt; the job's box is cleaned up either way.
#[derive(Clone, Copy, Debug, PartialEq, Eq, Structural)]
pub enum AfterAttempt {
    /// Attempt the job again.
    Retry,
    /// Done with the job: it has a verdict, or every attempt failed.
    Stop,
}

/// The failed attempts of one job so far.
#[derive(Clone, Copy, Debug, PartialEq, Eq, Structural)]
pub struct Retries {
    pub failures: u32,
}

impl Retries {
    /// No attempt has failed yet.
    pub fn new() -> (r: Retries)
        ensures
            r.failures == 0,
    {
        Retries { failures: 0 }
    }

    /// Records how an attempt ended: with a verdict, or with an error (`None`). An error, or an
    /// internal error, which is how the sandbox's passing faults surface, counts as a failed
    /// attempt and is tried again until `MAX_ATTEMPTS` attempts have failed; any other verdict
    /// stops.
    pub fn record(&mut self, verdict: Option<JobStatus>) -> (r: AfterAttempt)
        requires
            old(self).failures < MAX_ATTEMPTS,
        ensures
            !attempt_failed(verdict) ==> final(self).failures == old(self).failures && r
                == AfterAttempt::Stop,
            attempt_failed(verdict) ==> final(self).failures == old(self).failures + 1,
            attempt_failed(verdict) ==> (r == AfterAttempt::Retry <==> final(self).failures
                < MAX_ATTEMPTS),
            r == AfterAttempt::Retry ==> final(self).failures < MAX_ATTEMPTS,
    {
        let failed = match verdict {
            None => true,
            Some(JobStatus::InternalError) => true,
            Some(_) => false,
        };
        if !failed {
            return AfterAttempt::Stop;
        }
        self.failures = self.failures + 1;
        if self.failures >= MAX_ATTEMPTS {
            AfterAttempt::Stop
        } else {
            AfterAttempt::Retry
        }
    }
}

/// Whether an attempt counts as failed: it ended in error, or with an internal error.
pub open spec fn attempt_failed(verdict: Option<JobStatus>) -> bool {
    verdict is None || verdict == Some(JobStatus::InternalError)
}

/// What a blocking pop of the queue gave.
#[derive(Clone, Copy, Debug, PartialEq, Eq, Structural)]
pub enum PopResult {
    /// A job, which the consumer now owns.
    Job,
    /// Nothing within the timeout.
    Empty,
    /// The queue could not be reached or its record not read.
    Error,
}

/// How long a consumer pauses, in milliseconds, before it pops again: not at all after a job,
/// briefly after an empty pop, one second after an error so that a failing queue is not
/// hammered.
pub fn pause_after_pop(r: PopResult) -> (ms: u64)
    ensures
        ms == match r {
            PopResult::Job => 0u64,
            PopResult::Empty => 100u64,
            PopResult::Error => 1000u64,
        },
{
    match r {
        PopResult::Job => 0,
        PopResult::Empty => 100,
        PopResult::Error => 1000,
    }
}

} // verus!
