//! The retry policy of a flush.
//!
//! One batch is appended to the sink with a bounded number of attempts. After
//! a failed attempt the flush waits, a little longer each time, and tries
//! again; when the attempts are used up it gives the batch up. The caller
//! makes the attempts and does the waiting; [`FlushRetry`] counts and
//! decides.

use vstd::prelude::*;

verus! {

/// Attempts a flush is given.
pub const MAX_RETRIES: u8 = 5;

/// Milliseconds of waiting per failed attempt so far.
pub const BACKOFF_STEP_MILLIS: u64 = 100;

/// The sink table that events are appended to.
pub const SINK_TABLE: &'static str = "usage_events";

/// What a flush does after a failed attempt.
#[derive(Clone, Copy, Debug, PartialEq, Eq, Structural)]
pub enum RetryAction {
    /// Wait this many milliseconds, then attempt again.
    RetryAfter(u64),
    /// Drop the batch and report the failure.
    GiveUp,
}

/// The wait after the given number of failed attempts, in milliseconds.
pub open spec fn backoff_millis(failures: int) -> int {
    BACKOFF_STEP_MILLIS * failures
}

/// The action after a failure that brings the count of failed attempts to
/// `failures`, of `max_retries` attempts allowed.
pub open spec fn action_after_failure(failures: int, max_retries: int) -> RetryAction {
    if failures >= max_retries {
        RetryAction::GiveUp
    } else {
        RetryAction::RetryAfter(backoff_millis(failures) as u64)
    }
}

/// The progress of one flush: how many attempts have failed, of how many
/// allowed.
#[derive(Clone, Copy, Debug, PartialEq, Eq, Structural)]
pub struct FlushRetry {
    failures: u8,
    max_retries: u8,
}

impl FlushRetry {
    /// No more attempts have failed than are allowed.
    #[verifier::type_invariant]
    spec fn within_limit(self) -> bool {
        self.failures <= self.max_retries
    }

    /// The number of attempts that have failed.
    pub closed spec fn failed(&self) -> int {
        self.failures as int
    }

    /// The number of attempts allowed.
    pub closed spec fn allowed(&self) -> int {
        self.max_retries as int
    }

    /// A flush that has not been attempted yet.
    pub fn new(max_retries: u8) -> (retry: FlushRetry)
        ensures
            retry.failed() == 0,
            retry.allowed() == max_retries,
    {
        FlushRetry { failures: 0, max_retries }
    }

    /// The number of attempts that have failed: never more than are
    /// allowed.
    pub fn failures(&self) -> (n: u8)
        ensures
            n == self.failed(),
            n <= self.allowed(),
    {
        proof {
            use_type_invariant(self);
        }
        self.failures
    }

    /// The number of attempts allowed.
    pub fn max_retries(&self) -> (n: u8)
        ensures
            n == self.allowed(),
    {
        self.max_retries
    }

    /// Whether another attempt may be made.
    pub fn may_attempt(&self) -> (go: bool)
        ensures
            go == (self.failed() < self.allowed()),
    {
        self.failures < self.max_retries
    }

    /// Records a failed attempt and says what to do next.
    ///
    /// While attempts are left the failure is counted; the flush is given up
    /// if that was the last attempt allowed, and retried after
    /// [`backoff_millis`] of the new count otherwise. With no attempt left
    /// nothing is counted and the flush is given up.
    pub fn record_failure(&mut self) -> (action: RetryAction)
        ensures
            final(self).allowed() == old(self).allowed(),
            final(self).failed() <= final(self).allowed(),
            old(self).failed() < old(self).allowed() ==> {
                &&& final(self).failed() == old(self).failed() + 1
                &&& action == action_after_failure(final(self).failed(), final(self).allowed())
            },
            old(self).failed() >= old(self).allowed() ==> {
                &&& final(self).failed() == old(self).failed()
                &&& action == RetryAction::GiveUp
            },
    {
        proof {
            use_type_invariant(&*self);
        }
        if self.failures >= self.max_retries {
            return RetryAction::GiveUp;
        }
        self.failures = self.failures + 1;
        if self.failures >= self.max_retries {
            RetryAction::GiveUp
        } else {
            let wait: u64 = BACKOFF_STEP_MILLIS * (self.failures as u64);
            RetryAction::RetryAfter(wait)
        }
    }
}

/// A flush is given up exactly at the failure that uses up its attempts;
/// before that it is retried after a wait of [`BACKOFF_STEP_MILLIS`] for
/// each attempt that has failed, which fits the type of the wait.
pub proof fn lemma_retry_until_exhausted(failures: int, max_retries: int)
    requires
        1 <= failures <= max_retries <= u8::MAX,
    ensures
        action_after_failure(failures, max_retries) == RetryAction::GiveUp <==> failures
            == max_retries,
        failures < max_retries ==> action_after_failure(failures, max_retries)
            == RetryAction::RetryAfter((BACKOFF_STEP_MILLIS * failures) as u64),
        0 < BACKOFF_STEP_MILLIS * failures <= u64::MAX,
{
}

} // verus!
