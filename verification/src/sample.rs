//! Fixed-point sample conventions of the core.
//!
//! Audio samples and waveform phases are carried as `i64` values scaled by
//! [`FP_ONE`], so a nominal full-scale sample of 1.0 is the value `FP_ONE`.
//! Frequencies are carried in millihertz. All divisions of the core truncate
//! toward zero ([`tdiv`]), which keeps the arithmetic exactly reproducible.

use vstd::prelude::*;
use vstd::arithmetic::div_mod::lemma_div_is_ordered;
use vstd::arithmetic::div_mod::lemma_div_multiples_vanish;
use vstd::arithmetic::div_mod::lemma_div_pos_is_pos;

verus! {

/// The fixed-point unit: 2^24, standing for the real value 1.0.
pub const FP_ONE: i64 = 16777216;

/// Magnitude cap on every sample handed into the core (2^32 fixed-point
/// units, i.e. 256 nominal full-scale amplitudes of headroom). Needed so the
/// additive mixing of the pipeline provably stays inside `i64`.
pub const SAMPLE_BOUND: i64 = 4294967296;

/// Magnitude cap on produced output samples and on the previous-output
/// cache: an output sample is at most an input sample plus a playback sample
/// plus the oscillator contribution, which stays below `3 * SAMPLE_BOUND`.
pub const CACHE_BOUND: i64 = 12884901888;

/// Division truncating toward zero, as the executable code divides.
pub open spec fn tdiv(a: int, d: int) -> int {
    if a >= 0 {
        a / d
    } else {
        -((-a) / d)
    }
}

/// The magnitude of a truncating quotient is bounded by the quotient of the
/// magnitude bound.
pub proof fn lemma_tdiv_bound(a: int, bound: int, d: int)
    requires
        0 < d,
        -bound <= a <= bound,
    ensures
        -(bound / d) <= tdiv(a, d) <= bound / d,
{
    if a >= 0 {
        lemma_div_is_ordered(a, bound, d);
        lemma_div_pos_is_pos(a, d);
    } else {
        lemma_div_is_ordered(-a, bound, d);
        lemma_div_pos_is_pos(-a, d);
    }
}

/// Exact multiples divide out of a truncating quotient.
pub proof fn lemma_tdiv_multiple(x: int, d: int)
    requires
        0 < d,
        0 <= x,
    ensures
        tdiv(x * d, d) == x,
{
    assert(x * d >= 0) by (nonlinear_arith)
        requires
            0 <= x,
            0 < d,
    ;
    lemma_div_multiples_vanish(x, d);
}

/// Truncating division, the sample arithmetic's one rounding rule.
pub fn div_trunc(a: i64, d: i64) -> (r: i64)
    requires
        0 < d,
        i64::MIN < a,
    ensures
        r == tdiv(a as int, d as int),
        a >= 0 ==> 0 <= r <= a,
        a < 0 ==> a <= r <= 0,
{
    if a >= 0 {
        proof {
            lemma_div_is_ordered(a as int, a as int, d as int);
            lemma_div_pos_is_pos(a as int, d as int);
        }
        a / d
    } else {
        proof {
            lemma_div_is_ordered(-(a as int), -(a as int), d as int);
            lemma_div_pos_is_pos(-(a as int), d as int);
        }
        -((-a) / d)
    }
}

} // verus!
