//! Fixed-point cosine, sine and exponential.
//!
//! The flicker animation and the camera kinematics need `cos`, `sin` and
//! `e^x` on micro-unit scalars.  Each function here computes a truncated
//! power series after range reduction and is specified exactly by a spec
//! mirror of the same arithmetic, so callers reason about one definite
//! integer function; results are saturated into the range the true function
//! obeys (`[-1, 1]` for cosine and sine, `>= 1` for `e^x` on nonnegative
//! arguments).

use crate::fixed::fx_clamp;
use crate::fixed::fx_div_trunc;
use crate::fixed::fx_mul;
use crate::fixed::lemma_fx_mul_bound;
use crate::fixed::lemma_fx_mul_ge_one;
use crate::fixed::lemma_fx_mul_nonneg;
use crate::fixed::spec_clamp;
use crate::fixed::spec_fx_mul;
use crate::fixed::FX_ONE;
use vstd::arithmetic::div_mod::lemma_div_is_ordered_by_denominator;
use vstd::math::abs;
use vstd::prelude::*;

verus! {

/// Half a turn, in micro-radians.
pub const FX_PI: i64 = 3_141_593;

/// A full turn, in micro-radians.
pub const FX_TWO_PI: i64 = 6_283_185;

/// A quarter turn, in micro-radians.
pub const FX_HALF_PI: i64 = 1_570_796;

/// Largest angle magnitude the trigonometric entry points accept.
pub const ANGLE_BOUND: i64 = 1_000_000_000_000_000;

/// Largest argument `exp_fx` accepts, in micro-units.
pub const EXP_IN_MAX: i64 = 3_000_000;

/// Upper bound on `exp_fx` over its whole domain.
pub const EXP_OUT_MAX: i64 = 20_100_000;

/// Remainder rounding toward zero: the behaviour of Rust's `%` on signed
/// integers, for a positive divisor.
pub open spec fn spec_rem_trunc(a: int, d: int) -> int {
    if a >= 0 {
        a % d
    } else {
        -((-a) % d)
    }
}

/// The angle congruent to `a` in `[0, FX_TWO_PI)`.
pub open spec fn spec_wrap_angle(a: int) -> int {
    let t = spec_rem_trunc(a, FX_TWO_PI as int);
    if t < 0 {
        t + FX_TWO_PI
    } else {
        t
    }
}

/// Truncated cosine series on a folded quarter-turn argument, saturated into
/// `[-FX_ONE, FX_ONE]`.
pub open spec fn spec_cos_poly(x: int) -> int {
    let x2 = spec_fx_mul(x, x);
    let x4 = spec_fx_mul(x2, x2);
    let x6 = spec_fx_mul(x4, x2);
    spec_clamp(
        FX_ONE - fx_div_trunc(x2, 2) + fx_div_trunc(x4, 24) - fx_div_trunc(x6, 720),
        -FX_ONE as int,
        FX_ONE as int,
    )
}

/// Fixed-point cosine: range reduction into `[0, FX_TWO_PI)`, folding by the
/// symmetries of cosine, then the truncated series.
pub open spec fn spec_cos_fx(a: int) -> int {
    let m = spec_wrap_angle(a);
    let f = if m > FX_PI {
        FX_TWO_PI - m
    } else {
        m
    };
    if f <= FX_HALF_PI {
        spec_cos_poly(f)
    } else {
        -spec_cos_poly(FX_PI - f)
    }
}

/// Fixed-point sine, as the cosine shifted by a quarter turn.
pub open spec fn spec_sin_fx(a: int) -> int {
    spec_cos_fx(a - FX_HALF_PI)
}

/// Fixed-point `e^x` on `[0, EXP_IN_MAX]`: a truncated series on `x / 8`,
/// squared three times, saturated below at one unit.
pub open spec fn spec_exp_fx(x: int) -> int {
    let y = fx_div_trunc(x, 8);
    let y2 = spec_fx_mul(y, y);
    let y3 = spec_fx_mul(y2, y);
    let y4 = spec_fx_mul(y3, y);
    let y5 = spec_fx_mul(y4, y);
    let s = FX_ONE + y + fx_div_trunc(y2, 2) + fx_div_trunc(y3, 6) + fx_div_trunc(y4, 24)
        + fx_div_trunc(y5, 120);
    let r1 = spec_fx_mul(s, s);
    let r2 = spec_fx_mul(r1, r1);
    let r3 = spec_fx_mul(r2, r2);
    if r3 < FX_ONE {
        FX_ONE as int
    } else {
        r3
    }
}

/// Fixed-point `e^(-x)` on `[0, EXP_IN_MAX]`: the reciprocal of `exp_fx`.
pub open spec fn spec_exp_neg_fx(x: int) -> int {
    (FX_ONE as int) * (FX_ONE as int) / spec_exp_fx(x)
}

/// The wrapped angle always lands in `[0, FX_TWO_PI)`.
pub proof fn lemma_wrap_angle_range(a: int)
    ensures
        0 <= spec_wrap_angle(a) < FX_TWO_PI,
{
    if a >= 0 {
        vstd::arithmetic::div_mod::lemma_mod_division_less_than_divisor(a, FX_TWO_PI as int);
    } else {
        vstd::arithmetic::div_mod::lemma_mod_division_less_than_divisor(-a, FX_TWO_PI as int);
    }
}

/// Wrap an angle into `[0, FX_TWO_PI)`.
pub fn wrap_angle(a: i64) -> (r: i64)
    requires
        abs(a as int) <= ANGLE_BOUND as int + FX_HALF_PI as int,
    ensures
        r as int == spec_wrap_angle(a as int),
        0 <= r < FX_TWO_PI,
{
    let m = a % FX_TWO_PI;
    if m < 0 {
        m + FX_TWO_PI
    } else {
        m
    }
}

/// The truncated cosine series on a folded argument.
fn cos_poly(x: i64) -> (r: i64)
    requires
        0 <= x <= 1_600_000,
    ensures
        r as int == spec_cos_poly(x as int),
        -FX_ONE <= r <= FX_ONE,
{
    let x2 = fx_mul(x, x);
    proof {
        lemma_fx_mul_bound(x as int, x as int, 1_600_000, 1_600_000);
        lemma_fx_mul_nonneg(x as int, x as int);
    }
    let x4 = fx_mul(x2, x2);
    proof {
        lemma_fx_mul_bound(x2 as int, x2 as int, 2_560_000, 2_560_000);
        lemma_fx_mul_nonneg(x2 as int, x2 as int);
    }
    let x6 = fx_mul(x4, x2);
    proof {
        lemma_fx_mul_bound(x4 as int, x2 as int, 6_553_600, 2_560_000);
        lemma_fx_mul_nonneg(x4 as int, x2 as int);
    }
    fx_clamp(FX_ONE - x2 / 2 + x4 / 24 - x6 / 720, -FX_ONE, FX_ONE)
}

/// Fixed-point cosine of an angle in micro-radians.  The domain carries a
/// quarter turn of slack beyond `ANGLE_BOUND` so that sine's shifted
/// argument stays inside it.
pub fn cos_fx(a: i64) -> (r: i64)
    requires
        abs(a as int) <= ANGLE_BOUND as int + FX_HALF_PI as int,
    ensures
        r as int == spec_cos_fx(a as int),
        -FX_ONE <= r <= FX_ONE,
{
    let m = wrap_angle(a);
    let f = if m > FX_PI {
        FX_TWO_PI - m
    } else {
        m
    };
    if f <= FX_HALF_PI {
        cos_poly(f)
    } else {
        -cos_poly(FX_PI - f)
    }
}

/// Fixed-point sine of an angle in micro-radians.
pub fn sin_fx(a: i64) -> (r: i64)
    requires
        abs(a as int) <= ANGLE_BOUND as int,
    ensures
        r as int == spec_sin_fx(a as int),
        -FX_ONE <= r <= FX_ONE,
{
    cos_fx(a - FX_HALF_PI)
}

/// Fixed-point `e^x` for nonnegative `x` up to `EXP_IN_MAX`.
pub fn exp_fx(x: i64) -> (r: i64)
    requires
        0 <= x <= EXP_IN_MAX,
    ensures
        r as int == spec_exp_fx(x as int),
        FX_ONE <= r <= EXP_OUT_MAX,
{
    let y = x / 8;
    let y2 = fx_mul(y, y);
    proof {
        lemma_fx_mul_bound(y as int, y as int, 375_000, 375_000);
        lemma_fx_mul_nonneg(y as int, y as int);
    }
    let y3 = fx_mul(y2, y);
    proof {
        lemma_fx_mul_bound(y2 as int, y as int, 140_625, 375_000);
        lemma_fx_mul_nonneg(y2 as int, y as int);
    }
    let y4 = fx_mul(y3, y);
    proof {
        lemma_fx_mul_bound(y3 as int, y as int, 52_734, 375_000);
        lemma_fx_mul_nonneg(y3 as int, y as int);
    }
    let y5 = fx_mul(y4, y);
    proof {
        lemma_fx_mul_bound(y4 as int, y as int, 19_775, 375_000);
        lemma_fx_mul_nonneg(y4 as int, y as int);
    }
    let s = FX_ONE + y + y2 / 2 + y3 / 6 + y4 / 24 + y5 / 120;
    let r1 = fx_mul(s, s);
    proof {
        lemma_fx_mul_bound(s as int, s as int, 1_455_000, 1_455_000);
        lemma_fx_mul_ge_one(s as int, s as int);
    }
    let r2 = fx_mul(r1, r1);
    proof {
        lemma_fx_mul_bound(r1 as int, r1 as int, 2_117_025, 2_117_025);
        lemma_fx_mul_ge_one(r1 as int, r1 as int);
    }
    let r3 = fx_mul(r2, r2);
    proof {
        lemma_fx_mul_bound(r2 as int, r2 as int, 4_481_795, 4_481_795);
        lemma_fx_mul_ge_one(r2 as int, r2 as int);
    }
    if r3 < FX_ONE {
        FX_ONE
    } else {
        r3
    }
}

/// Fixed-point `e^(-x)` for nonnegative `x` up to `EXP_IN_MAX`.
pub fn exp_neg_fx(x: i64) -> (r: i64)
    requires
        0 <= x <= EXP_IN_MAX,
    ensures
        r as int == spec_exp_neg_fx(x as int),
        0 < r <= FX_ONE,
{
    let e = exp_fx(x);
    proof {
        lemma_div_is_ordered_by_denominator(
            (FX_ONE as int) * (FX_ONE as int),
            FX_ONE as int,
            e as int,
        );
        lemma_div_is_ordered_by_denominator(
            (FX_ONE as int) * (FX_ONE as int),
            e as int,
            EXP_OUT_MAX as int,
        );
    }
    (FX_ONE * FX_ONE) / e
}

} // verus!
