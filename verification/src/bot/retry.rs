//! Retry policy with exponential backoff for Telegram API calls.
//!
//! A call is attempted up to [`MAX_RETRIES`] times; after a failed attempt
//! that is not the last, the caller waits and tries again, the wait doubling
//! each time: the first attempt is immediate, the second follows after
//! 1000 ms, the third after 2000 ms more.

use vstd::prelude::*;
use vstd::arithmetic::power2::pow2;

verus! {

/// Maximum number of attempts of a call.
pub const MAX_RETRIES: u32 = 3;

/// Wait before the second attempt, in milliseconds.
pub const INITIAL_BACKOFF_MS: u64 = 1000;

/// Where a retried call stands: the number of the attempt about to be made
/// (from 0) and the wait before the next one should it fail.
#[derive(Debug, Clone, Copy, PartialEq, Eq, Structural)]
pub struct RetryState {
    pub attempt: u32,
    pub delay_ms: u64,
}

/// What to do after a failed attempt.
#[derive(Debug, Clone, Copy, PartialEq, Eq, Structural)]
pub enum RetryDecision {
    /// Wait this many milliseconds, then attempt again in the new state.
    RetryAfter(u64, RetryState),
    /// Report the failure.
    GiveUp,
}

/// A state reached by the policy: attempt `k` waits `1000 * 2^k` ms if it fails.
pub open spec fn retry_state_valid(s: RetryState) -> bool {
    s.attempt < MAX_RETRIES && s.delay_ms == INITIAL_BACKOFF_MS * pow2(s.attempt as nat)
}

/// What the policy decides after the attempt of state `s` failed: retry after
/// the current delay with the delay doubled, unless it was the last attempt.
pub open spec fn retry_decision(s: RetryState) -> RetryDecision {
    if s.attempt + 1 < MAX_RETRIES {
        RetryDecision::RetryAfter(
            s.delay_ms,
            RetryState { attempt: (s.attempt + 1) as u32, delay_ms: (s.delay_ms * 2) as u64 },
        )
    } else {
        RetryDecision::GiveUp
    }
}

impl RetryState {
    /// The state before the first attempt.
    pub fn initial() -> (r: RetryState)
        ensures
            r == (RetryState { attempt: 0, delay_ms: INITIAL_BACKOFF_MS }),
            retry_state_valid(r),
    {
        proof { vstd::arithmetic::power2::lemma2_to64(); }
        RetryState { attempt: 0, delay_ms: INITIAL_BACKOFF_MS }
    }

    /// What to do when the attempt of this state failed: retry after the
    /// current delay with the delay doubled, unless it was the last attempt.
    pub fn on_failure(self) -> (r: RetryDecision)
        requires
            retry_state_valid(self),
        ensures
            r == retry_decision(self),
    {
        if self.attempt < MAX_RETRIES - 1 {
            proof {
                vstd::arithmetic::power2::lemma2_to64();
            }
            RetryDecision::RetryAfter(self.delay_ms, RetryState { attempt: self.attempt + 1, delay_ms: self.delay_ms * 2 })
        } else {
            RetryDecision::GiveUp
        }
    }
}

/// The policy's states stay valid: each retry moves to the next attempt with
/// twice the delay, so a call is attempted at most `MAX_RETRIES` times and the
/// wait before attempt `k + 1` is `1000 * 2^k` ms.
pub proof fn law_retry_backoff(s: RetryState)
    requires
        retry_state_valid(s),
    ensures
        s.attempt + 1 < MAX_RETRIES ==> {
            let next = RetryState { attempt: (s.attempt + 1) as u32, delay_ms: (s.delay_ms * 2) as u64 };
            &&& retry_state_valid(next)
            &&& next.delay_ms == 2 * s.delay_ms
            &&& s.delay_ms == INITIAL_BACKOFF_MS * pow2(s.attempt as nat)
        },
{
    if s.attempt + 1 < MAX_RETRIES {
        vstd::arithmetic::power2::lemma2_to64();
        vstd::arithmetic::power2::lemma_pow2_unfold((s.attempt + 1) as nat);
    }
}

/// A failing call is attempted three times: the first attempt is immediate,
/// the second follows after 1000 ms and the third after 2000 ms more, so the
/// waits before the final failure add up to 3000 ms.
pub proof fn law_retry_schedule()
    ensures
        ({
            let s0 = RetryState { attempt: 0, delay_ms: INITIAL_BACKOFF_MS };
            let s1 = RetryState { attempt: 1, delay_ms: 2000 };
            let s2 = RetryState { attempt: 2, delay_ms: 4000 };
            &&& retry_decision(s0) == RetryDecision::RetryAfter(1000, s1)
            &&& retry_decision(s1) == RetryDecision::RetryAfter(2000, s2)
            &&& retry_decision(s2) == RetryDecision::GiveUp
        }),
{
}

} // verus!
