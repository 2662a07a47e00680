//! The fetcher's bounded-retry policy: up to a fixed number of
//! retrieval attempts for one URL, with a fixed delay between a failed
//! attempt and the next.
//!
//! The network call itself is outside work; the surrounding process
//! performs one attempt at a time and feeds what it observed into
//! [`FetchState::record_attempt`], which decides whether to return the
//! body, suspend and retry, or give up.

use vstd::prelude::*;

verus! {

/// Greatest number of retrieval attempts for one URL.
pub const MAX_ATTEMPTS: u8 = 3;

/// Seconds a task suspends between a failed attempt and the next one.
pub const RETRY_DELAY_SECS: u64 = 1;

/// What one retrieval attempt observed.
pub enum AttemptOutcome {
    /// A response with a success status; carries the full body.
    Success(Vec<u8>),
    /// A response with a non-success status code.
    BadStatus(u16),
    /// No response: a transport-level error, described in words.
    TransportError(String),
}

/// What the fetcher does after one attempt.
pub enum FetchDecision {
    /// Return the body of the successful attempt.
    Done(Vec<u8>),
    /// Suspend the task for `RETRY_DELAY_SECS`, then attempt again.
    RetryAfterDelay,
    /// Give up: every attempt is spent without success.
    Exhausted,
}

/// Failure of a whole fetch: every attempt spent without success.
/// Carries a human-readable summary.
pub enum FetchError {
    FetchExhausted(String),
}

impl FetchError {
    /// The summary the error carries.
    pub open spec fn spec_summary(self) -> Seq<char> {
        match self {
            FetchError::FetchExhausted(s) => s@,
        }
    }

    /// Reads the human-readable summary.
    pub fn summary(&self) -> (r: &String)
        ensures
            r@ == self.spec_summary(),
    {
        match self {
            FetchError::FetchExhausted(s) => s,
        }
    }
}

/// The error a fetch ends in once every attempt has failed.
pub fn exhausted_error() -> (e: FetchError)
    ensures
        e is FetchExhausted,
        e.spec_summary() == "Failed to fetch the URL after multiple attempts"@,
{
    FetchError::FetchExhausted(String::from_str("Failed to fetch the URL after multiple attempts"))
}

/// The decision owed once `attempts_done` attempts are spent, the one
/// that observed `outcome` included: a success is returned at once; a
/// failure is retried after a delay while attempts remain, and is
/// exhaustion once none do.
pub open spec fn spec_decision(attempts_done: int, outcome: AttemptOutcome) -> FetchDecision {
    match outcome {
        AttemptOutcome::Success(body) => FetchDecision::Done(body),
        AttemptOutcome::BadStatus(_) => if attempts_done < MAX_ATTEMPTS as int {
            FetchDecision::RetryAfterDelay
        } else {
            FetchDecision::Exhausted
        },
        AttemptOutcome::TransportError(_) => if attempts_done < MAX_ATTEMPTS as int {
            FetchDecision::RetryAfterDelay
        } else {
            FetchDecision::Exhausted
        },
    }
}

/// Progress of one bounded-retry fetch.
pub struct FetchState {
    /// Attempts already spent; never above `MAX_ATTEMPTS`.
    pub attempts_made: u8,
}

impl FetchState {
    /// A fetch that has not attempted anything yet.
    pub fn new() -> (s: Self)
        ensures
            s.attempts_made == 0,
    {
        FetchState { attempts_made: 0 }
    }

    /// Whether another attempt may still be made.
    pub fn can_attempt(&self) -> (b: bool)
        ensures
            b == (self.attempts_made < MAX_ATTEMPTS),
    {
        self.attempts_made < MAX_ATTEMPTS
    }

    /// Spends one attempt and decides what follows from what it
    /// observed.
    pub fn record_attempt(&mut self, outcome: AttemptOutcome) -> (d: FetchDecision)
        requires
            old(self).attempts_made < MAX_ATTEMPTS,
        ensures
            final(self).attempts_made == old(self).attempts_made + 1,
            d == spec_decision(final(self).attempts_made as int, outcome),
    {
        self.attempts_made = self.attempts_made + 1;
        match outcome {
            AttemptOutcome::Success(body) => FetchDecision::Done(body),
            AttemptOutcome::BadStatus(_) => if self.attempts_made < MAX_ATTEMPTS {
                FetchDecision::RetryAfterDelay
            } else {
                FetchDecision::Exhausted
            },
            AttemptOutcome::TransportError(_) => if self.attempts_made < MAX_ATTEMPTS {
                FetchDecision::RetryAfterDelay
            } else {
                FetchDecision::Exhausted
            },
        }
    }
}

/// The body a whole fetch returns when the successive attempts would
/// observe `o1`, `o2`, `o3`: the first success wins, and `None` is
/// exhaustion.
pub open spec fn spec_fetch_body(
    o1: AttemptOutcome,
    o2: AttemptOutcome,
    o3: AttemptOutcome,
) -> Option<Vec<u8>> {
    if o1 is Success {
        Some(o1->Success_0)
    } else if o2 is Success {
        Some(o2->Success_0)
    } else if o3 is Success {
        Some(o3->Success_0)
    } else {
        None
    }
}

/// How many attempts that whole fetch makes.
pub open spec fn spec_fetch_attempts(
    o1: AttemptOutcome,
    o2: AttemptOutcome,
    o3: AttemptOutcome,
) -> int {
    if o1 is Success {
        1
    } else if o2 is Success {
        2
    } else {
        3
    }
}

/// How many inter-attempt delays that whole fetch takes: one after
/// each failed attempt that another attempt follows.
pub open spec fn spec_fetch_delays(
    o1: AttemptOutcome,
    o2: AttemptOutcome,
    o3: AttemptOutcome,
) -> int {
    if o1 is Success {
        0
    } else if o2 is Success {
        1
    } else {
        2
    }
}

/// Retry ceiling: when every attempt fails, the fetcher makes exactly
/// `MAX_ATTEMPTS` attempts with exactly `MAX_ATTEMPTS - 1` delays of
/// `RETRY_DELAY_SECS` between them, deciding to retry after each
/// failed attempt but the last, and ends exhausted.
pub proof fn lemma_retry_ceiling(o1: AttemptOutcome, o2: AttemptOutcome, o3: AttemptOutcome)
    requires
        !(o1 is Success),
        !(o2 is Success),
        !(o3 is Success),
    ensures
        spec_fetch_attempts(o1, o2, o3) == MAX_ATTEMPTS as int,
        spec_fetch_delays(o1, o2, o3) == MAX_ATTEMPTS as int - 1,
        spec_fetch_body(o1, o2, o3) is None,
        spec_decision(1, o1) == FetchDecision::RetryAfterDelay,
        spec_decision(2, o2) == FetchDecision::RetryAfterDelay,
        spec_decision(3, o3) == FetchDecision::Exhausted,
        RETRY_DELAY_SECS == 1,
{
}

/// Retry recovery: when the first two attempts fail and the third
/// succeeds, the fetcher returns the third body, having made every
/// attempt once and none further.
pub proof fn lemma_retry_recovery(o1: AttemptOutcome, o2: AttemptOutcome, body: Vec<u8>)
    requires
        !(o1 is Success),
        !(o2 is Success),
    ensures
        spec_fetch_body(o1, o2, AttemptOutcome::Success(body)) == Some(body),
        spec_fetch_attempts(o1, o2, AttemptOutcome::Success(body)) == MAX_ATTEMPTS as int,
        spec_fetch_delays(o1, o2, AttemptOutcome::Success(body)) == MAX_ATTEMPTS as int - 1,
        spec_decision(3, AttemptOutcome::Success(body)) == FetchDecision::Done(body),
{
}

/// A successful attempt ends the fetch at once, whichever attempt in
/// the sequence it is.
pub proof fn lemma_success_ends_fetch(attempts_done: int, body: Vec<u8>)
    ensures
        spec_decision(attempts_done, AttemptOutcome::Success(body)) == FetchDecision::Done(body),
{
}

} // verus!
