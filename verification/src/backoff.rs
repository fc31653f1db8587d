//! Exponential backoff between the attempts of one download.

use vstd::arithmetic::power2::{lemma2_to64_rest, lemma_pow2_strictly_increases, lemma_pow2_unfold, pow2};
use vstd::prelude::*;

verus! {

/// Largest attempt index whose delay still fits in a `u64` number of seconds.
pub const MAX_BACKOFF_EXPONENT: usize = 63;

/// Delay, in seconds, that follows the failed attempt with index `attempt`:
/// base two, no jitter, so 1, 2, 4, ...
pub open spec fn backoff_delay(attempt: nat) -> nat {
    pow2(attempt)
}

/// Every delay up to the largest exponent fits in a `u64`.
pub proof fn lemma_backoff_delay_fits(attempt: nat)
    requires
        attempt <= MAX_BACKOFF_EXPONENT,
    ensures
        0 < backoff_delay(attempt) <= 0x8000_0000_0000_0000,
{
    lemma2_to64_rest();
    vstd::arithmetic::power2::lemma_pow2_pos(attempt);
    if attempt < 63 {
        lemma_pow2_strictly_increases(attempt, 63);
    }
}

/// Each delay is twice the one before it, starting from one second.
pub proof fn lemma_backoff_delay_doubles(attempt: nat)
    ensures
        backoff_delay(0) == 1,
        backoff_delay(attempt + 1) == 2 * backoff_delay(attempt),
{
    vstd::arithmetic::power2::lemma2_to64();
    lemma_pow2_unfold(attempt + 1);
}

/// Seconds to wait after the attempt with index `attempt` has failed.
pub fn backoff_seconds(attempt: usize) -> (seconds: u64)
    requires
        attempt <= MAX_BACKOFF_EXPONENT,
    ensures
        seconds == backoff_delay(attempt as nat),
{
    let mut seconds: u64 = 1;
    let mut k: usize = 0;
    proof {
        lemma_backoff_delay_doubles(0);
    }
    while k < attempt
        invariant
            k <= attempt <= MAX_BACKOFF_EXPONENT,
            seconds == backoff_delay(k as nat),
        decreases attempt - k,
    {
        proof {
            lemma_backoff_delay_doubles(k as nat);
            lemma_backoff_delay_fits((k + 1) as nat);
        }
        seconds = seconds * 2;
        k = k + 1;
    }
    seconds
}

} // verus!
