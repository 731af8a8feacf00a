//! Retry with exponential backoff.
//!
//! The operation and the waiting are the caller's: after each failed
//! attempt it asks [`after_failure`] whether to wait and try again or to
//! give up with the error.

use vstd::prelude::*;
use vstd::arithmetic::power2::{lemma2_to64, lemma_pow2_unfold, pow2};

verus! {

/// Configuration of retries.
#[derive(Debug, Clone, Copy, PartialEq, Eq)]
pub struct RetryConfig {
    /// Maximum number of attempts.
    pub max_retries: u32,
    /// Base delay for exponential backoff, in milliseconds.
    pub base_delay_ms: u64,
    /// Maximum delay between attempts, in milliseconds.
    pub max_delay_ms: u64,
}

impl Default for RetryConfig {
    fn default() -> (c: Self)
        ensures
            c == (RetryConfig { max_retries: 3, base_delay_ms: 1000, max_delay_ms: 30_000 }),
    {
        RetryConfig { max_retries: 3, base_delay_ms: 1000, max_delay_ms: 30_000 }
    }
}

/// What to do after a failed attempt.
#[derive(Debug, Clone, Copy, PartialEq, Eq)]
pub enum RetryStep {
    /// Sleep this many milliseconds, then make the next attempt.
    WaitMs(u64),
    /// Stop and return the error.
    GiveUp,
}

/// The backoff before attempt `attempt + 1`, in milliseconds: `2^attempt`
/// times the base delay, capped at the maximum delay.
pub open spec fn backoff_ms(config: RetryConfig, attempt: nat) -> int {
    let d = pow2(attempt) * config.base_delay_ms;
    if d < config.max_delay_ms { d as int } else { config.max_delay_ms as int }
}

/// The backoff can be computed in 64 bits.
pub open spec fn backoff_fits(config: RetryConfig, attempt: nat) -> bool {
    attempt < 64 && pow2(attempt) * config.base_delay_ms <= u64::MAX
}

/// The step after attempt `attempt` (counted from 0) failed: give up on an
/// error that is not retryable or after the last attempt, otherwise wait
/// the backoff.
pub open spec fn retry_step(config: RetryConfig, attempt: nat, retryable: bool) -> RetryStep {
    if !retryable || attempt + 1 >= config.max_retries {
        RetryStep::GiveUp
    } else {
        RetryStep::WaitMs(backoff_ms(config, attempt) as u64)
    }
}

/// The backoff in milliseconds before attempt `attempt + 1`.
pub fn backoff_delay_ms(config: &RetryConfig, attempt: u32) -> (d: u64)
    requires
        backoff_fits(*config, attempt as nat),
    ensures
        d == backoff_ms(*config, attempt as nat),
{
    let mut p: u64 = 1;
    let mut i: u32 = 0;
    proof {
        lemma2_to64();
        vstd::arithmetic::power2::lemma_pow2_strictly_increases(attempt as nat, 64);
    }
    while i < attempt
        invariant
            i <= attempt < 64,
            p == pow2(i as nat),
            pow2(attempt as nat) <= u64::MAX,
        decreases attempt - i,
    {
        proof {
            lemma_pow2_unfold((i + 1) as nat);
            lemma_pow2_monotone((i + 1) as nat, attempt as nat);
        }
        p = p * 2;
        i = i + 1;
    }
    let base = config.base_delay_ms;
    let cap = config.max_delay_ms;
    proof {
        assert(pow2(attempt as nat) * base <= u64::MAX);
    }
    let d = p * base;
    if d < cap { d } else { cap }
}

proof fn lemma_pow2_monotone(a: nat, b: nat)
    requires
        a <= b,
    ensures
        pow2(a) <= pow2(b),
    decreases b - a,
{
    if a < b {
        lemma_pow2_monotone(a, (b - 1) as nat);
        lemma_pow2_unfold(b);
    }
}

/// Decides what follows a failed attempt.
pub fn after_failure(config: &RetryConfig, attempt: u32, retryable: bool) -> (s: RetryStep)
    requires
        retryable && (attempt as int) + 1 < config.max_retries ==> backoff_fits(*config, attempt as nat),
    ensures
        s == retry_step(*config, attempt as nat, retryable),
{
    if !retryable || attempt >= config.max_retries || attempt + 1 >= config.max_retries {
        RetryStep::GiveUp
    } else {
        RetryStep::WaitMs(backoff_delay_ms(config, attempt))
    }
}

/// Backoff never shrinks from one attempt to the next and never exceeds the
/// configured maximum.
pub proof fn lemma_backoff_monotone_and_capped(config: RetryConfig, a: nat, b: nat)
    requires
        a <= b,
    ensures
        backoff_ms(config, a) <= backoff_ms(config, b),
        backoff_ms(config, b) <= config.max_delay_ms,
{
    lemma_pow2_monotone(a, b);
    let base = config.base_delay_ms;
    assert(pow2(a) * base <= pow2(b) * base) by (nonlinear_arith)
        requires pow2(a) <= pow2(b);
}

/// At most `max_retries` attempts are made: after attempt `max_retries - 1`
/// (or any later one) the step is to give up, whatever the error.
pub proof fn lemma_attempts_bounded(config: RetryConfig, attempt: nat, retryable: bool)
    requires
        attempt + 1 >= config.max_retries,
    ensures
        retry_step(config, attempt, retryable) == RetryStep::GiveUp,
{
}

/// An error that is not retryable ends the retries at once.
pub proof fn lemma_non_retryable_gives_up(config: RetryConfig, attempt: nat)
    ensures
        retry_step(config, attempt, false) == RetryStep::GiveUp,
{
}

} // verus!
