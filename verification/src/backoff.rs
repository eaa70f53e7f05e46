//! Jittered backoff: the randomized retry-wait transform and the global
//! ceiling that bounds any composed backoff schedule.
//!
//! Durations are carried as whole nanoseconds. The jitter transform maps a
//! base duration `d` to a wait drawn uniformly from `[d/2, d/2 + d)`:
//! centering the jitter around the base keeps retries away from zero delay
//! while still decorrelating simultaneous retries across many workers.
//! Clamping to the global ceiling is the caller's job, applied before or
//! after jitter, consistently.

use vstd::arithmetic::div_mod::lemma_multiply_divide_lt;
use vstd::arithmetic::mul::lemma_mul_strict_inequality;
use vstd::arithmetic::mul::lemma_mul_upper_bound;
use vstd::prelude::*;

verus! {

/// Ceiling on any composed backoff schedule: ten minutes.
pub const MAX_BACKOFF_SECS: u64 = 10 * 60;

pub const NANOS_PER_SEC: u64 = 1_000_000_000;

/// The same ceiling in the nanosecond unit the jitter functions use.
pub const MAX_BACKOFF_NANOS: u64 = MAX_BACKOFF_SECS * NANOS_PER_SEC;

/// A jitter sample is a 32-bit fixed-point fraction: it stands for the
/// real number `sample / JITTER_SAMPLE_SCALE`, uniform over `[0, 1)`.
pub const JITTER_SAMPLE_SCALE: u64 = 0x1_0000_0000;

/// The jitter transform on a base duration in nanoseconds: half the base
/// plus a sample-chosen fraction of the whole base.
pub open spec fn jittered(base: int, sample: int) -> int {
    base / 2 + (base * sample) / (JITTER_SAMPLE_SCALE as int)
}

/// Relies on rand::random: a `u32` drawn uniformly from the thread-local
/// generator, so each call is sourced independently of other tasks'
/// calls. Nothing is promised of the value.
#[verifier::external_body]
fn draw_jitter_sample() -> (r: u32) {
    rand::random::<u32>()
}

/// Applies the jitter transform for one already-drawn sample: the result
/// is exactly `jittered(base, sample)`, which lies in `[base/2, base/2 + base)`
/// whenever the base is positive.
pub fn jitter_from_sample(base: u64, sample: u32) -> (r: u64)
    requires
        base <= u64::MAX / 2,
    ensures
        r == jittered(base as int, sample as int),
        base / 2 <= r,
        base > 0 ==> r < base / 2 + base,
        base == 0 ==> r == 0,
{
    proof {
        lemma_mul_upper_bound(base as int, u64::MAX as int, sample as int, u32::MAX as int);
        if base > 0 {
            lemma_mul_strict_inequality(
                sample as int,
                JITTER_SAMPLE_SCALE as int,
                base as int,
            );
            lemma_multiply_divide_lt(
                base as int * sample as int,
                JITTER_SAMPLE_SCALE as int,
                base as int,
            );
        }
    }
    let prod: u128 = (base as u128) * (sample as u128);
    let frac: u64 = (prod / (JITTER_SAMPLE_SCALE as u128)) as u64;
    base / 2 + frac
}

/// Draws a fresh random sample and applies the jitter transform: the wait
/// is uniformly distributed over `[base/2, base/2 + base)` for a positive
/// base, and zero for a zero base.
pub fn jittered_wait(base: u64) -> (r: u64)
    requires
        base <= u64::MAX / 2,
    ensures
        base / 2 <= r,
        base > 0 ==> r < base / 2 + base,
        base == 0 ==> r == 0,
        exists|sample: int|
            0 <= sample < JITTER_SAMPLE_SCALE && r == #[trigger] jittered(base as int, sample),
{
    let sample: u32 = draw_jitter_sample();
    let r: u64 = jitter_from_sample(base, sample);
    proof {
        assert(r == jittered(base as int, sample as int));
    }
    r
}

} // verus!
