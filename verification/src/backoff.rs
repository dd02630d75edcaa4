//! The retry delay schedule: an exponential backoff, 10 ms doubling with
//! each attempt, saturating at `u64::MAX`, with full random jitter applied
//! to each delay so that many handlers failing together do not retry in
//! lockstep.

use vstd::prelude::*;
use vstd::arithmetic::power2::{pow2, lemma_pow2_unfold, lemma_pow2_strictly_increases, lemma_pow2_pos, lemma2_to64, lemma2_to64_rest};

verus! {

/// Milliseconds of the delay before the first retry.
pub const BASE_DELAY_MS: u64 = 10;

/// Largest delay handed to the jitter call, in milliseconds; delays the
/// schedule produces beyond it (reached only after some fifty attempts)
/// are clamped to it.
pub const JITTER_DELAY_CAP_MS: u64 = 0x4000000000000;

/// The undisturbed schedule: the delay, in milliseconds, slept after the
/// failed attempt with index `attempt` (counted from zero) before the next
/// one, doubling with each attempt.
pub open spec fn spec_backoff(attempt: nat) -> nat {
    (BASE_DELAY_MS * pow2(attempt)) as nat
}

/// The schedule as a machine word: `spec_backoff`, saturating at `u64::MAX`.
pub open spec fn spec_backoff_sat(attempt: nat) -> u64 {
    if spec_backoff(attempt) <= u64::MAX {
        spec_backoff(attempt) as u64
    } else {
        u64::MAX
    }
}

/// The schedule strictly increases from one attempt to a later one, as long
/// as the later delay still fits a machine word.
pub proof fn lemma_backoff_strictly_increases(i: nat, j: nat)
    requires
        i < j,
    ensures
        spec_backoff(i) < spec_backoff(j),
        spec_backoff(j) <= u64::MAX ==> spec_backoff_sat(i) < spec_backoff_sat(j),
{
    lemma_pow2_strictly_increases(i, j);
}

/// From the sixty-third attempt on the schedule has left every machine
/// word behind: the saturated delay is `u64::MAX`.
pub proof fn lemma_backoff_sat_large(attempt: nat)
    requires
        attempt >= 63,
    ensures
        spec_backoff_sat(attempt) == u64::MAX,
{
    lemma2_to64_rest();
    if attempt > 63 {
        lemma_pow2_strictly_increases(63, attempt);
    }
}

/// Computes the undisturbed backoff delay for the given attempt index,
/// saturating at `u64::MAX`.
pub fn backoff_ms(attempt: u32) -> (r: u64)
    ensures
        r == spec_backoff_sat(attempt as nat),
{
    let mut d: u64 = BASE_DELAY_MS;
    let mut i: u32 = 0;
    proof {
        lemma2_to64();
    }
    while i < attempt
        invariant
            i <= attempt,
            d == spec_backoff_sat(i as nat),
        decreases attempt - i,
    {
        proof {
            lemma_pow2_unfold(i as nat + 1);
            lemma_pow2_pos(i as nat);
        }
        if d > u64::MAX / 2 {
            d = u64::MAX;
        } else {
            d = d * 2;
        }
        i = i + 1;
    }
    d
}

/// Relies on `retry::delay::jitter`: it scales a duration by a random factor
/// drawn from the half-open unit interval, so the jittered delay never
/// exceeds the delay it was drawn from.  The bound on the input keeps the
/// scaling exact to the millisecond.
#[verifier::external_body]
fn jitter_ms(ms: u64) -> (r: u64)
    requires
        ms <= JITTER_DELAY_CAP_MS,
    ensures
        r <= ms,
{
    let d = retry::delay::jitter(std::time::Duration::from_millis(ms));
    d.as_millis() as u64
}

/// The delay, in milliseconds, to sleep after the failed attempt with index
/// `attempt` before the next one: the exponential schedule with random
/// jitter applied, so the result is bounded by the schedule but varies from
/// call to call.
pub fn retry_delay_ms(attempt: u32) -> (r: u64)
    ensures
        r <= spec_backoff_sat(attempt as nat),
{
    let base = backoff_ms(attempt);
    let capped = if base > JITTER_DELAY_CAP_MS {
        JITTER_DELAY_CAP_MS
    } else {
        base
    };
    jitter_ms(capped)
}

} // verus!
