//! Bounded retry with exponential backoff.
//!
//! A submission that fails in a passing way is tried again after a delay
//! that doubles with every failure and never exceeds a ceiling. After a
//! fixed number of retries the item is given up.

use vstd::prelude::*;
use vstd::arithmetic::power2::{pow2, lemma2_to64, lemma_pow2_pos, lemma_pow2_unfold, lemma_pow2_strictly_increases};
use crate::types::RelayConfig;

verus! {

/// The delay before the retry that follows the `failures`-th failure in a
/// row: the base delay doubled once for every failure after the first,
/// cut off at the ceiling. With no failure there is no delay.
pub open spec fn spec_backoff_delay(base_ms: u64, ceiling_ms: u64, failures: u32) -> u64 {
    if failures == 0 {
        0
    } else if base_ms * pow2((failures - 1) as nat) < ceiling_ms {
        (base_ms * pow2((failures - 1) as nat)) as u64
    } else {
        ceiling_ms
    }
}

/// What follows a failure that may pass.
#[derive(Clone, Copy, Debug, PartialEq, Eq, Structural)]
pub enum RetryDecision {
    /// Try again after this many milliseconds.
    RetryAfter(u64),
    /// The retries are used up.
    GiveUp,
}

/// The decision after one more failure, when `failures_before` failures
/// of the same item came before it: a retry while fewer than
/// `max_retries` retries have been made, and then no more.
pub open spec fn spec_after_failure(cfg: RelayConfig, failures_before: u32) -> RetryDecision {
    if failures_before < cfg.max_retries {
        RetryDecision::RetryAfter(
            spec_backoff_delay(cfg.backoff_base_ms, cfg.backoff_ceiling_ms, (failures_before + 1) as u32),
        )
    } else {
        RetryDecision::GiveUp
    }
}

proof fn lemma_scaled_pow2_monotonic(base: u64, a: nat, b: nat)
    requires
        a <= b,
    ensures
        base * pow2(a) <= base * pow2(b),
{
    if a < b {
        lemma_pow2_strictly_increases(a, b);
    }
    assert(base * pow2(a) <= base * pow2(b)) by (nonlinear_arith)
        requires
            pow2(a) <= pow2(b),
            base >= 0,
    ;
}

/// The delay before the retry that follows the `failures`-th failure.
pub fn backoff_delay(base_ms: u64, ceiling_ms: u64, failures: u32) -> (delay: u64)
    ensures
        delay == spec_backoff_delay(base_ms, ceiling_ms, failures),
        delay <= ceiling_ms,
{
    if failures == 0 {
        return 0;
    }
    let mut delay: u64 = if base_ms < ceiling_ms { base_ms } else { ceiling_ms };
    let mut k: u32 = 1;
    proof {
        lemma2_to64();
        assert(base_ms * pow2(0) == base_ms);
    }
    while k < failures && 0 < delay && delay < ceiling_ms
        invariant
            1 <= k <= failures,
            delay == spec_backoff_delay(base_ms, ceiling_ms, k),
            delay <= ceiling_ms,
        decreases failures - k,
    {
        proof {
            lemma_pow2_unfold(k as nat);
            assert(base_ms * pow2(k as nat) == 2 * (base_ms * pow2((k - 1) as nat))) by (nonlinear_arith)
                requires
                    pow2(k as nat) == 2 * pow2((k - 1) as nat),
            ;
        }
        if delay >= ceiling_ms - delay {
            delay = ceiling_ms;
        } else {
            delay = delay * 2;
        }
        k = k + 1;
    }
    proof {
        if k < failures {
            lemma_scaled_pow2_monotonic(base_ms, (k - 1) as nat, (failures - 1) as nat);
            if delay == 0 && delay < ceiling_ms {
                lemma_pow2_pos((k - 1) as nat);
                assert(base_ms == 0) by (nonlinear_arith)
                    requires
                        base_ms * pow2((k - 1) as nat) == 0,
                        pow2((k - 1) as nat) > 0,
                        base_ms >= 0,
                ;
                assert(base_ms * pow2((failures - 1) as nat) == 0) by (nonlinear_arith)
                    requires
                        base_ms == 0,
                ;
            }
        }
    }
    delay
}

/// Decides between another retry and giving up, after one more failure.
pub fn after_failure(cfg: &RelayConfig, failures_before: u32) -> (decision: RetryDecision)
    ensures
        decision == spec_after_failure(*cfg, failures_before),
{
    if failures_before < cfg.max_retries {
        RetryDecision::RetryAfter(backoff_delay(cfg.backoff_base_ms, cfg.backoff_ceiling_ms, failures_before + 1))
    } else {
        RetryDecision::GiveUp
    }
}

/// No delay is longer than the ceiling.
pub proof fn lemma_backoff_bounded(base_ms: u64, ceiling_ms: u64, failures: u32)
    ensures
        spec_backoff_delay(base_ms, ceiling_ms, failures) <= ceiling_ms,
{
}

/// The delay never shrinks from one failure to the next.
pub proof fn lemma_backoff_monotonic(base_ms: u64, ceiling_ms: u64, f1: u32, f2: u32)
    requires
        f1 <= f2,
    ensures
        spec_backoff_delay(base_ms, ceiling_ms, f1) <= spec_backoff_delay(base_ms, ceiling_ms, f2),
{
    if f1 >= 1 {
        lemma_scaled_pow2_monotonic(base_ms, (f1 - 1) as nat, (f2 - 1) as nat);
    }
}

/// The first retry waits the base delay, the second twice as long, unless
/// the ceiling is lower.
pub proof fn lemma_backoff_first_steps(base_ms: u64, ceiling_ms: u64)
    ensures
        spec_backoff_delay(base_ms, ceiling_ms, 1) == if base_ms < ceiling_ms { base_ms } else { ceiling_ms },
        spec_backoff_delay(base_ms, ceiling_ms, 2) == if 2 * base_ms < ceiling_ms { (2 * base_ms) as u64 } else { ceiling_ms },
{
    lemma2_to64();
    assert(base_ms * pow2(0) == base_ms);
    assert(base_ms * pow2(1) == 2 * base_ms);
}

} // verus!
