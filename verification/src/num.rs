//! Small arithmetic helpers shared by the simulation core.
use vstd::prelude::*;

verus! {

/// Mathematical clamp of `x` into `[lo, hi]`.
pub open spec fn spec_clamp(x: int, lo: int, hi: int) -> int
    recommends
        lo <= hi,
{
    if x < lo {
        lo
    } else if x > hi {
        hi
    } else {
        x
    }
}

/// Clamps `x` into `[lo, hi]`.
pub fn clamp_i64(x: i64, lo: i64, hi: i64) -> (r: i64)
    requires
        lo <= hi,
    ensures
        r == spec_clamp(x as int, lo as int, hi as int),
        lo <= r <= hi,
{
    if x < lo {
        lo
    } else if x > hi {
        hi
    } else {
        x
    }
}

/// Mathematical minimum.
pub open spec fn spec_min(a: int, b: int) -> int {
    if a < b {
        a
    } else {
        b
    }
}

/// The smaller of `a` and `b`.
pub fn min_i64(a: i64, b: i64) -> (r: i64)
    ensures
        r == spec_min(a as int, b as int),
{
    if a < b {
        a
    } else {
        b
    }
}

/// The product of two nonnegative bounded values is bounded by the product
/// of the bounds.
pub proof fn lemma_mul_nonneg_bounds(a: int, amax: int, b: int, bmax: int)
    by (nonlinear_arith)
    requires
        0 <= a <= amax,
        0 <= b <= bmax,
    ensures
        0 <= a * b <= amax * bmax,
{
}

/// Bounds on the product of a signed bounded value and a nonnegative
/// bounded value.
pub proof fn lemma_mul_signed_nonneg_bounds(x: int, lo: int, hi: int, t: int, tmax: int)
    by (nonlinear_arith)
    requires
        lo <= x <= hi,
        0 <= t <= tmax,
    ensures
        x * t <= (if hi >= 0 { hi * tmax } else { 0 }),
        x * t >= (if lo <= 0 { lo * tmax } else { 0 }),
{
}

} // verus!
