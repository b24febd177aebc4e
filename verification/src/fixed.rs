//! Fixed-point scalars.
//!
//! Every continuous quantity of the scene core (seconds, radians, material
//! parameters, world coordinates) is carried as an `i64` number of
//! micro-units: the value `v` stands for the real number `v / FX_ONE`.

use vstd::arithmetic::div_mod::lemma_div_is_ordered;
use vstd::arithmetic::div_mod::lemma_div_pos_is_pos;
use vstd::math::abs;
use vstd::prelude::*;

verus! {

/// One whole unit: fixed-point values carry six decimal places.
pub const FX_ONE: i64 = 1_000_000;

/// Magnitude cap on the operands of a fixed-point product; the product of two
/// in-cap operands, rescaled by `FX_ONE`, always fits in `i64`.
pub const FX_BOUND: i64 = 1_000_000_000_000;

/// Division rounding toward zero, for a positive divisor: the behaviour of
/// Rust's `/` on signed integers.
pub open spec fn fx_div_trunc(a: int, d: int) -> int {
    if a >= 0 {
        a / d
    } else {
        -((-a) / d)
    }
}

/// The fixed-point product: the mathematical product rescaled by `FX_ONE`,
/// rounded toward zero.
pub open spec fn spec_fx_mul(a: int, b: int) -> int {
    fx_div_trunc(a * b, FX_ONE as int)
}

/// Saturation of `v` into the closed interval `[lo, hi]`.
pub open spec fn spec_clamp(v: int, lo: int, hi: int) -> int {
    if v < lo {
        lo
    } else if v > hi {
        hi
    } else {
        v
    }
}

/// The magnitude of a product is bounded by the product of the magnitudes.
pub proof fn lemma_mul_abs_bound(a: int, b: int, aa: int, bb: int)
    requires
        abs(a) <= aa,
        abs(b) <= bb,
    ensures
        abs(a * b) <= aa * bb,
{
    assert(abs(a * b) <= aa * bb) by (nonlinear_arith)
        requires
            abs(a) <= aa,
            abs(b) <= bb,
    ;
}

/// Truncating division by a positive divisor divides the magnitude.
pub proof fn lemma_fx_div_trunc_abs(a: int, d: int)
    requires
        0 < d,
    ensures
        abs(fx_div_trunc(a, d)) == abs(a) as int / d,
{
    if a >= 0 {
        lemma_div_pos_is_pos(a, d);
    } else {
        lemma_div_pos_is_pos(-a, d);
    }
}

/// The magnitude of a fixed-point product, from magnitude bounds on its
/// operands.
pub proof fn lemma_fx_mul_bound(a: int, b: int, aa: int, bb: int)
    requires
        abs(a) <= aa,
        abs(b) <= bb,
    ensures
        abs(spec_fx_mul(a, b)) <= (aa * bb) / (FX_ONE as int),
{
    lemma_mul_abs_bound(a, b, aa, bb);
    lemma_fx_div_trunc_abs(a * b, FX_ONE as int);
    lemma_div_is_ordered(abs(a * b) as int, aa * bb, FX_ONE as int);
}

/// A fixed-point product of nonnegative factors is nonnegative.
pub proof fn lemma_fx_mul_nonneg(a: int, b: int)
    requires
        0 <= a,
        0 <= b,
    ensures
        0 <= spec_fx_mul(a, b),
{
    assert(0 <= a * b) by (nonlinear_arith)
        requires
            0 <= a,
            0 <= b,
    ;
    lemma_div_pos_is_pos(a * b, FX_ONE as int);
}

/// Scaling a nonnegative value by a factor of at most one unit never
/// increases it.
pub proof fn lemma_fx_mul_le_one(d: int, f: int)
    requires
        0 <= d,
        0 <= f <= FX_ONE,
    ensures
        0 <= spec_fx_mul(d, f) <= d,
{
    assert(d * f <= d * (FX_ONE as int) && 0 <= d * f) by (nonlinear_arith)
        requires
            0 <= d,
            0 <= f <= FX_ONE,
    ;
    lemma_div_is_ordered(d * f, d * (FX_ONE as int), FX_ONE as int);
    assert(d * (FX_ONE as int) / (FX_ONE as int) == d) by (nonlinear_arith);
    lemma_div_pos_is_pos(d * f, FX_ONE as int);
}

/// Scaling a nonnegative value by a factor of at least one unit never
/// decreases it.
pub proof fn lemma_fx_mul_ge_one(d: int, f: int)
    requires
        0 <= d,
        FX_ONE <= f,
    ensures
        d <= spec_fx_mul(d, f),
{
    assert(d * (FX_ONE as int) <= d * f) by (nonlinear_arith)
        requires
            0 <= d,
            FX_ONE <= f,
    ;
    lemma_div_is_ordered(d * (FX_ONE as int), d * f, FX_ONE as int);
    assert(d * (FX_ONE as int) / (FX_ONE as int) == d) by (nonlinear_arith);
}

/// Fixed-point product of two scalars, truncated toward zero.
pub fn fx_mul(a: i64, b: i64) -> (r: i64)
    requires
        abs(a as int) <= FX_BOUND as int,
        abs(b as int) <= FX_BOUND as int,
    ensures
        r as int == spec_fx_mul(a as int, b as int),
{
    proof {
        lemma_mul_abs_bound(a as int, b as int, FX_BOUND as int, FX_BOUND as int);
        lemma_fx_div_trunc_abs((a as int) * (b as int), FX_ONE as int);
        lemma_div_is_ordered(
            abs((a as int) * (b as int)) as int,
            (FX_BOUND as int) * (FX_BOUND as int),
            FX_ONE as int,
        );
    }
    let p: i128 = (a as i128) * (b as i128);
    let q: i128 = p / (FX_ONE as i128);
    q as i64
}

/// Saturate `v` into `[lo, hi]`.
pub fn fx_clamp(v: i64, lo: i64, hi: i64) -> (r: i64)
    requires
        lo <= hi,
    ensures
        r as int == spec_clamp(v as int, lo as int, hi as int),
{
    if v < lo {
        lo
    } else if v > hi {
        hi
    } else {
        v
    }
}

} // verus!
