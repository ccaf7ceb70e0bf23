//! The retry policy wrapped around each client's primary operation: a fixed
//! budget of attempts with exponential backoff, blind to the kind of error.
//!
//! The caller performs one attempt, hands the outcome to [`RetryState::step`],
//! and either returns the decision's result or sleeps for the given delay and
//! tries again. Every decision is a pure function of the attempt count and
//! the outcome, so the whole loop's behaviour is fixed by [`spec_retry_run`].

use vstd::prelude::*;

use crate::errors::AppError;

verus! {

/// The fixed number of attempts every operation is given.
pub const MAX_ATTEMPTS: usize = 3;

/// What to do after an attempt: surface this result, or try again after a
/// delay in seconds.
pub enum RetryDecision<V> {
    Done(Result<V, AppError>),
    RetryAfterSecs(u64),
}

/// The backoff before the attempt that follows failed attempt number
/// `attempt` (1-based): 2^(attempt-1) seconds, so 1s after the first
/// failure and 2s after the second.
pub open spec fn spec_backoff_secs(attempt: nat) -> nat
    decreases attempt,
{
    if attempt <= 1 {
        1
    } else {
        2 * spec_backoff_secs((attempt - 1) as nat)
    }
}

/// The decision after an attempt: a success is surfaced at once, a failure is
/// surfaced once the budget is spent, and any earlier failure is retried
/// after the backoff — whatever kind of error it was.
pub open spec fn spec_retry_step<V>(
    attempts_before: nat,
    outcome: Result<V, AppError>,
) -> RetryDecision<V> {
    if outcome is Ok {
        RetryDecision::Done(outcome)
    } else if attempts_before + 1 >= MAX_ATTEMPTS {
        RetryDecision::Done(outcome)
    } else {
        RetryDecision::RetryAfterSecs(spec_backoff_secs((attempts_before + 1) as nat) as u64)
    }
}

/// A whole retry run over the attempts' outcomes, starting with
/// `attempts_before` attempts already spent: the surfaced result and the
/// total number of attempts made.
pub open spec fn spec_retry_run<V>(
    attempts_before: nat,
    outcomes: Seq<Result<V, AppError>>,
) -> (Result<V, AppError>, nat)
    decreases outcomes.len(),
{
    if outcomes.len() == 0 {
        arbitrary()
    } else {
        match spec_retry_step(attempts_before, outcomes[0]) {
            RetryDecision::Done(r) => (r, attempts_before + 1),
            RetryDecision::RetryAfterSecs(_) => spec_retry_run(
                attempts_before + 1,
                outcomes.drop_first(),
            ),
        }
    }
}

/// The attempts already made for one operation.
#[derive(Debug, Clone, Copy, PartialEq, Eq, Structural)]
pub struct RetryState {
    pub attempts: usize,
}

impl RetryState {
    /// A fresh budget: no attempt made yet.
    pub fn new() -> (s: Self)
        ensures
            s.attempts == 0,
    {
        RetryState { attempts: 0 }
    }

    /// Records one attempt's outcome and decides whether to surface it or to
    /// retry after the backoff.
    pub fn step<V>(&mut self, outcome: Result<V, AppError>) -> (d: RetryDecision<V>)
        requires
            old(self).attempts < MAX_ATTEMPTS,
        ensures
            final(self).attempts == old(self).attempts + 1,
            d == spec_retry_step(old(self).attempts as nat, outcome),
    {
        self.attempts = self.attempts + 1;
        match outcome {
            Result::Ok(v) => RetryDecision::Done(Result::Ok(v)),
            Result::Err(e) => {
                if self.attempts >= MAX_ATTEMPTS {
                    RetryDecision::Done(Result::Err(e))
                } else {
                    let delay = backoff_secs(self.attempts);
                    RetryDecision::RetryAfterSecs(delay)
                }
            },
        }
    }
}

/// The backoff in seconds after failed attempt number `attempt` (1-based),
/// defined while the budget still allows another attempt.
pub fn backoff_secs(attempt: usize) -> (d: u64)
    requires
        1 <= attempt < MAX_ATTEMPTS,
    ensures
        d == spec_backoff_secs(attempt as nat),
{
    proof {
        assert(spec_backoff_secs(1) == 1);
        assert(spec_backoff_secs(2) == 2);
    }
    if attempt == 1 {
        1
    } else {
        2
    }
}

/// Retry law, recovery case: when the first two attempts fail and the third
/// succeeds, the run surfaces the third outcome and makes exactly three
/// attempts.
pub proof fn lemma_retry_two_failures_then_success<V>(outcomes: Seq<Result<V, AppError>>)
    requires
        outcomes.len() == 3,
        outcomes[0] is Err,
        outcomes[1] is Err,
        outcomes[2] is Ok,
    ensures
        spec_retry_run(0, outcomes).0 == outcomes[2],
        spec_retry_run(0, outcomes).1 == 3,
{
    let o1 = outcomes.drop_first();
    let o2 = o1.drop_first();
    assert(o1[0] == outcomes[1] && o2[0] == outcomes[2]);
    assert(spec_retry_run(0, outcomes) == spec_retry_run(1, o1));
    assert(spec_retry_run(1, o1) == spec_retry_run(2, o2));
    assert(spec_retry_run(2, o2).0 == outcomes[2] && spec_retry_run(2, o2).1 == 3);
}

/// Retry law, exhaustion case: when every attempt fails, the run makes
/// exactly three attempts and surfaces the final attempt's error.
pub proof fn lemma_retry_all_fail<V>(outcomes: Seq<Result<V, AppError>>)
    requires
        outcomes.len() == 3,
        forall|i: int| 0 <= i < 3 ==> (#[trigger] outcomes[i]) is Err,
    ensures
        spec_retry_run(0, outcomes).0 == outcomes[2],
        spec_retry_run(0, outcomes).1 == 3,
{
    let o1 = outcomes.drop_first();
    let o2 = o1.drop_first();
    assert(o1[0] == outcomes[1] && o2[0] == outcomes[2]);
    assert(spec_retry_run(0, outcomes) == spec_retry_run(1, o1));
    assert(spec_retry_run(1, o1) == spec_retry_run(2, o2));
    assert(spec_retry_run(2, o2).0 == outcomes[2] && spec_retry_run(2, o2).1 == 3);
}

} // verus!
