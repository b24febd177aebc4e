//! Fixed-point 3-D vectors and quaternions.
//!
//! Orientations are quaternions whose components are micro-units; a
//! well-formed orientation has a squared norm within `UNIT_TOL` of one
//! square unit.  Incremental rotations drift, so every rotation step is
//! followed by a renormalization whose output is proved to be within that
//! tolerance again.

use crate::fixed::fx_mul;
use crate::fixed::lemma_fx_mul_bound;
use crate::fixed::spec_fx_mul;
use crate::fixed::FX_ONE;
use vstd::arithmetic::div_mod::lemma_div_is_ordered;
use vstd::arithmetic::div_mod::lemma_div_multiples_vanish;
use vstd::arithmetic::div_mod::lemma_fundamental_div_mod;
use vstd::arithmetic::div_mod::lemma_mod_division_less_than_divisor;
use vstd::math::abs;
use vstd::prelude::*;

verus! {

/// A 3-D vector in micro-units.
#[derive(Clone, Copy, PartialEq, Eq, Structural, Debug)]
pub struct Vec3Fx {
    pub x: i64,
    pub y: i64,
    pub z: i64,
}

/// A quaternion in micro-units; `x`, `y`, `z` are the vector part.
#[derive(Clone, Copy, PartialEq, Eq, Structural, Debug)]
pub struct QuatFx {
    pub x: i64,
    pub y: i64,
    pub z: i64,
    pub w: i64,
}

/// Tolerance on the squared norm of a well-formed orientation, around one
/// square unit.
pub const UNIT_TOL: i64 = 10_000_000;

/// Magnitude bound on each component of a near-unit quaternion.
pub const QCOMP_BOUND: i64 = 1_100_000;

impl Vec3Fx {
    pub open spec fn norm_sq(self) -> int {
        (self.x as int) * (self.x as int) + (self.y as int) * (self.y as int) + (self.z
            as int) * (self.z as int)
    }

    /// The unit vector along the world X axis.
    pub open spec fn spec_unit_x() -> Vec3Fx {
        Vec3Fx { x: FX_ONE, y: 0, z: 0 }
    }

    /// The unit vector along the world-up (Y) axis.
    pub open spec fn spec_unit_y() -> Vec3Fx {
        Vec3Fx { x: 0, y: FX_ONE, z: 0 }
    }
}

impl QuatFx {
    pub open spec fn norm_sq(self) -> int {
        (self.x as int) * (self.x as int) + (self.y as int) * (self.y as int) + (self.z
            as int) * (self.z as int) + (self.w as int) * (self.w as int)
    }

    /// The identity rotation.
    pub open spec fn spec_identity() -> QuatFx {
        QuatFx { x: 0, y: 0, z: 0, w: FX_ONE }
    }

    /// The squared norm is within `UNIT_TOL` of one square unit.
    pub open spec fn near_unit(self) -> bool {
        (FX_ONE as int) * (FX_ONE as int) - UNIT_TOL <= self.norm_sq() <= (FX_ONE as int) * (
        FX_ONE as int) + UNIT_TOL
    }
}

/// The identity rotation is exactly one unit long.
pub proof fn lemma_identity_near_unit()
    ensures
        QuatFx::spec_identity().near_unit(),
{
    assert((FX_ONE as int) * (FX_ONE as int) == 1_000_000_000_000int) by (nonlinear_arith);
}

impl QuatFx {
    /// The identity rotation, the orientation a session starts from.
    pub fn identity() -> (q: QuatFx)
        ensures
            q == QuatFx::spec_identity(),
            q.near_unit(),
    {
        proof {
            lemma_identity_near_unit();
        }
        QuatFx { x: 0, y: 0, z: 0, w: FX_ONE }
    }
}

/// Each component of a near-unit quaternion is small.
pub proof fn lemma_near_unit_comp_bound(q: QuatFx)
    requires
        q.near_unit(),
    ensures
        abs(q.x as int) <= QCOMP_BOUND,
        abs(q.y as int) <= QCOMP_BOUND,
        abs(q.z as int) <= QCOMP_BOUND,
        abs(q.w as int) <= QCOMP_BOUND,
{
    assert(abs(q.x as int) <= QCOMP_BOUND && abs(q.y as int) <= QCOMP_BOUND && abs(
        q.z as int,
    ) <= QCOMP_BOUND && abs(q.w as int) <= QCOMP_BOUND) by (nonlinear_arith)
        requires
            q.norm_sq() <= (FX_ONE as int) * (FX_ONE as int) + UNIT_TOL,
    ;
}

/// Integer square root: the greatest `r` with `r * r <= n`.
pub fn isqrt_u128(n: u128) -> (r: u64)
    ensures
        (r as int) * (r as int) <= n as int,
        (n as int) < ((r as int) + 1) * ((r as int) + 1),
{
    let mut lo: u128 = 0;
    let mut hi: u128 = 0x1_0000_0000_0000_0000;
    proof {
        assert((hi as int) * (hi as int) > n as int) by (nonlinear_arith)
            requires
                hi == 0x1_0000_0000_0000_0000u128,
                n <= u128::MAX,
        ;
    }
    while hi - lo > 1
        invariant
            lo < hi <= 0x1_0000_0000_0000_0000,
            (lo as int) * (lo as int) <= n as int,
            (n as int) < (hi as int) * (hi as int),
        decreases hi - lo,
    {
        let mid: u128 = lo + (hi - lo) / 2;
        proof {
            assert((mid as int) * (mid as int) < 0x1_0000_0000_0000_0000_0000_0000_0000_0000int)
                by (nonlinear_arith)
                requires
                    mid < 0x1_0000_0000_0000_0000u128,
            ;
        }
        let sq: u128 = mid * mid;
        if sq <= n {
            lo = mid;
        } else {
            hi = mid;
        }
    }
    lo as u64
}

/// Division of one magnitude-scaled component by the norm, rounding toward
/// zero: the component of the normalized vector.
pub open spec fn spec_norm_div(c: int, s: int) -> int {
    if c >= 0 {
        c * (FX_ONE as int) / s
    } else {
        -((-c) * (FX_ONE as int) / s)
    }
}

/// One component of a normalization: `c` scaled to a unit norm `s`.  A
/// component never exceeds the norm, so the result never exceeds one unit.
fn norm_div(c: i64, s: u64) -> (r: i64)
    requires
        1 <= s <= 4_000_000_000,
        abs(c as int) <= s as int,
    ensures
        r as int == spec_norm_div(c as int, s as int),
        abs(r as int) <= FX_ONE as int,
{
    let ac: i64 = if c < 0 {
        -c
    } else {
        c
    };
    proof {
        vstd::arithmetic::mul::lemma_mul_inequality(ac as int, s as int, FX_ONE as int);
    }
    let m: u128 = (ac as u128) * (FX_ONE as u128);
    proof {
        lemma_div_is_ordered(m as int, (s as int) * (FX_ONE as int), s as int);
        lemma_div_multiples_vanish(FX_ONE as int, s as int);
        vstd::arithmetic::div_mod::lemma_div_pos_is_pos(m as int, s as int);
    }
    let d: u128 = m / (s as u128);
    if c < 0 {
        -(d as i64)
    } else {
        d as i64
    }
}

/// `s` is the integer square root of `n`.
pub open spec fn is_root(s: int, n: int) -> bool {
    0 <= s && s * s <= n && n < (s + 1) * (s + 1)
}

/// The integer square root of a nonnegative integer.
pub open spec fn spec_isqrt(n: int) -> int {
    choose|s: int| is_root(s, n)
}

/// The integer square root is unique.
pub proof fn lemma_isqrt_unique(s: int, n: int)
    requires
        is_root(s, n),
    ensures
        spec_isqrt(n) == s,
{
    assert(exists|t: int| is_root(t, n)) by {
        assert(is_root(s, n));
    }
    let t = spec_isqrt(n);
    assert(t == s) by (nonlinear_arith)
        requires
            is_root(t, n),
            is_root(s, n),
    ;
}

/// Every nonnegative integer has an integer square root.
pub proof fn lemma_isqrt_exists(n: int)
    requires
        0 <= n,
    ensures
        is_root(spec_isqrt(n), n),
    decreases n,
{
    if n == 0 {
        lemma_isqrt_unique(0, 0);
    } else {
        lemma_isqrt_exists(n - 1);
        let s = spec_isqrt(n - 1);
        if (s + 1) * (s + 1) <= n {
            assert(is_root(s + 1, n)) by (nonlinear_arith)
                requires
                    is_root(s, n - 1),
                    (s + 1) * (s + 1) <= n,
            ;
            lemma_isqrt_unique(s + 1, n);
        } else {
            assert(is_root(s, n));
            lemma_isqrt_unique(s, n);
        }
    }
}

/// A component whose square is at most `n` is at most the integer square
/// root of `n` in magnitude.
proof fn lemma_comp_le_root(c: int, n: int, s: int)
    requires
        c * c <= n,
        0 <= s,
        n < (s + 1) * (s + 1),
    ensures
        abs(c) <= s,
{
    assert(abs(c) <= s) by (nonlinear_arith)
        requires
            c * c <= n,
            0 <= s,
            n < (s + 1) * (s + 1),
    ;
}

/// The square of one normalized component, scaled back by the squared norm,
/// sits within one rounding step of the component's square in square units.
proof fn lemma_norm_div_comp(c: int, s: int)
    requires
        1 <= s,
        abs(c) <= s,
    ensures
        0 <= spec_norm_div(c, s) * spec_norm_div(c, s),
        abs(spec_norm_div(c, s)) <= FX_ONE as int,
        spec_norm_div(c, s) * spec_norm_div(c, s) * (s * s) <= c * c * ((FX_ONE as int) * (
        FX_ONE as int)),
        c * c * ((FX_ONE as int) * (FX_ONE as int)) <= spec_norm_div(c, s) * spec_norm_div(c, s) * (
        s * s) + (2 * (FX_ONE as int) + 1) * (s * s),
{
    let k = FX_ONE as int;
    let ac = abs(c) as int;
    let q = ac * k / s;
    let r = (ac * k) % s;
    lemma_fundamental_div_mod(ac * k, s);
    lemma_mod_division_less_than_divisor(ac * k, s);
    vstd::arithmetic::mul::lemma_mul_inequality(ac, s, k);
    lemma_div_is_ordered(ac * k, s * k, s);
    lemma_div_multiples_vanish(k, s);
    vstd::arithmetic::div_mod::lemma_div_pos_is_pos(ac * k, s);
    assert(0 <= q <= k);
    assert(ac * k == s * q + r);
    assert(abs(spec_norm_div(c, s)) == q);
    assert(spec_norm_div(c, s) * spec_norm_div(c, s) == q * q) by (nonlinear_arith)
        requires
            abs(spec_norm_div(c, s)) == q,
    ;
    assert((ac * k) * (ac * k) == q * q * (s * s) + (2 * q * s * r + r * r)) by (nonlinear_arith)
        requires
            ac * k == s * q + r,
    ;
    assert((ac * k) * (ac * k) == c * c * (k * k)) by (nonlinear_arith)
        requires
            ac == abs(c),
    ;
    assert(0 <= 2 * q * s * r + r * r <= (2 * k + 1) * (s * s)) by (nonlinear_arith)
        requires
            0 <= q <= k,
            0 <= r < s,
            1 <= s,
    ;
}

/// The squared norm of a renormalized quaternion is within `UNIT_TOL` of
/// one square unit, provided the input norm lay within a factor of two of a
/// unit.
proof fn lemma_renorm_norm_bounds(a: int, b: int, c: int, d: int, s: int)
    requires
        250_000_000_000 <= a * a + b * b + c * c + d * d <= 4_000_000_000_000,
        0 <= s,
        s * s <= a * a + b * b + c * c + d * d,
        a * a + b * b + c * c + d * d < (s + 1) * (s + 1),
    ensures
        (FX_ONE as int) * (FX_ONE as int) - UNIT_TOL <= spec_norm_div(a, s) * spec_norm_div(a, s)
            + spec_norm_div(b, s) * spec_norm_div(b, s) + spec_norm_div(c, s) * spec_norm_div(c, s)
            + spec_norm_div(d, s) * spec_norm_div(d, s) <= (FX_ONE as int) * (FX_ONE as int)
            + UNIT_TOL,
{
    let k = FX_ONE as int;
    let n = a * a + b * b + c * c + d * d;
    assert(s >= 500_000) by (nonlinear_arith)
        requires
            0 <= s,
            n < (s + 1) * (s + 1),
            n >= 250_000_000_000,
            n == a * a + b * b + c * c + d * d,
    ;
    assert(a * a <= n && b * b <= n && c * c <= n && d * d <= n) by (nonlinear_arith)
        requires
            n == a * a + b * b + c * c + d * d,
    ;
    lemma_comp_le_root(a, n, s);
    lemma_comp_le_root(b, n, s);
    lemma_comp_le_root(c, n, s);
    lemma_comp_le_root(d, n, s);
    lemma_norm_div_comp(a, s);
    lemma_norm_div_comp(b, s);
    lemma_norm_div_comp(c, s);
    lemma_norm_div_comp(d, s);
    let qa = spec_norm_div(a, s);
    let qb = spec_norm_div(b, s);
    let qc = spec_norm_div(c, s);
    let qd = spec_norm_div(d, s);
    let qq = qa * qa + qb * qb + qc * qc + qd * qd;
    let t = s * s;
    // Sum the four per-component sandwiches.
    assert(qq * t == qa * qa * t + qb * qb * t + qc * qc * t + qd * qd * t) by (nonlinear_arith)
        requires
            qq == qa * qa + qb * qb + qc * qc + qd * qd,
    ;
    assert(n * (k * k) == a * a * (k * k) + b * b * (k * k) + c * c * (k * k) + d * d * (k * k))
        by (nonlinear_arith)
        requires
            n == a * a + b * b + c * c + d * d,
    ;
    assert(qq * t <= n * (k * k));
    assert(n * (k * k) <= qq * t + 4 * (2 * k + 1) * t) by {
        assert(4 * (2 * k + 1) * t == (2 * k + 1) * t + (2 * k + 1) * t + (2 * k + 1) * t + (2 * k
            + 1) * t) by (nonlinear_arith);
    }
    // Lower bound: n >= t, so k*k*t <= n*(k*k) <= t*(qq + 8k + 4).
    assert(t * (k * k) <= n * (k * k)) by (nonlinear_arith)
        requires
            t <= n,
            0 <= k,
    ;
    assert(qq * t + 4 * (2 * k + 1) * t == (qq + 8 * k + 4) * t) by (nonlinear_arith);
    vstd::arithmetic::mul::lemma_mul_inequality_converse(k * k, qq + 8 * k + 4, t);
    assert(k * k <= qq + 8 * k + 4);
    // Upper bound: n <= t + 2s, so qq*t <= (t + 2s)*(k*k).
    assert(n * (k * k) <= (t + 2 * s) * (k * k)) by (nonlinear_arith)
        requires
            n < (s + 1) * (s + 1),
            t == s * s,
            0 <= k,
    ;
    assert(qq * t <= (t + 2 * s) * (k * k));
    assert(qq * t == (qq * s) * s) by (nonlinear_arith)
        requires
            t == s * s,
    ;
    assert((t + 2 * s) * (k * k) == (s * (k * k) + 2 * (k * k)) * s) by (nonlinear_arith)
        requires
            t == s * s,
    ;
    vstd::arithmetic::mul::lemma_mul_inequality_converse(qq * s, s * (k * k) + 2 * (k * k), s);
    assert(qq * s <= s * (k * k) + 2 * (k * k));
    assert(qq <= k * k + 4_000_000) by {
        if qq > k * k + 4_000_000 {
            assert(s * qq >= s * (k * k + 4_000_001)) by (nonlinear_arith)
                requires
                    qq >= k * k + 4_000_001,
                    s >= 0,
            ;
            assert(s * (k * k + 4_000_001) >= s * (k * k) + 500_000 * 4_000_001) by (
            nonlinear_arith)
                requires
                    s >= 500_000,
                    k == 1_000_000,
            ;
            assert(qq * s == s * qq) by (nonlinear_arith);
        }
    }
}

/// Squared norm of a quaternion, computed exactly.
fn quat_norm_sq_u128(q: &QuatFx) -> (n: u128)
    requires
        abs(q.x as int) <= 1_000_000_000,
        abs(q.y as int) <= 1_000_000_000,
        abs(q.z as int) <= 1_000_000_000,
        abs(q.w as int) <= 1_000_000_000,
    ensures
        n as int == q.norm_sq(),
{
    proof {
        assert((q.x as int) * (q.x as int) <= 1_000_000_000_000_000_000int && 0 <= (q.x as int) * (
        q.x as int)) by (nonlinear_arith)
            requires
                abs(q.x as int) <= 1_000_000_000,
        ;
        assert((q.y as int) * (q.y as int) <= 1_000_000_000_000_000_000int && 0 <= (q.y as int) * (
        q.y as int)) by (nonlinear_arith)
            requires
                abs(q.y as int) <= 1_000_000_000,
        ;
        assert((q.z as int) * (q.z as int) <= 1_000_000_000_000_000_000int && 0 <= (q.z as int) * (
        q.z as int)) by (nonlinear_arith)
            requires
                abs(q.z as int) <= 1_000_000_000,
        ;
        assert((q.w as int) * (q.w as int) <= 1_000_000_000_000_000_000int && 0 <= (q.w as int) * (
        q.w as int)) by (nonlinear_arith)
            requires
                abs(q.w as int) <= 1_000_000_000,
        ;
    }
    let xx: i128 = (q.x as i128) * (q.x as i128);
    let yy: i128 = (q.y as i128) * (q.y as i128);
    let zz: i128 = (q.z as i128) * (q.z as i128);
    let ww: i128 = (q.w as i128) * (q.w as i128);
    (xx + yy + zz + ww) as u128
}

/// Squared norm of a vector, computed exactly.
pub fn vec_norm_sq_u128(v: &Vec3Fx) -> (n: u128)
    requires
        abs(v.x as int) <= 1_000_000_000,
        abs(v.y as int) <= 1_000_000_000,
        abs(v.z as int) <= 1_000_000_000,
    ensures
        n as int == v.norm_sq(),
{
    proof {
        assert((v.x as int) * (v.x as int) <= 1_000_000_000_000_000_000int && 0 <= (v.x as int) * (
        v.x as int)) by (nonlinear_arith)
            requires
                abs(v.x as int) <= 1_000_000_000,
        ;
        assert((v.y as int) * (v.y as int) <= 1_000_000_000_000_000_000int && 0 <= (v.y as int) * (
        v.y as int)) by (nonlinear_arith)
            requires
                abs(v.y as int) <= 1_000_000_000,
        ;
        assert((v.z as int) * (v.z as int) <= 1_000_000_000_000_000_000int && 0 <= (v.z as int) * (
        v.z as int)) by (nonlinear_arith)
            requires
                abs(v.z as int) <= 1_000_000_000,
        ;
    }
    let xx: i128 = (v.x as i128) * (v.x as i128);
    let yy: i128 = (v.y as i128) * (v.y as i128);
    let zz: i128 = (v.z as i128) * (v.z as i128);
    (xx + yy + zz) as u128
}

/// Renormalization of a quaternion: each component scaled by the unit over
/// the integer square root of the squared norm.  A quaternion whose norm
/// has left the band between half a unit and two units — which no chain of
/// well-formed rotation steps produces — is replaced by the identity, the
/// defensive counterpart of the parameter clamps.
pub open spec fn spec_quat_renormalize(q: QuatFx) -> QuatFx {
    let n = q.norm_sq();
    if n < 250_000_000_000 || n > 4_000_000_000_000 {
        QuatFx::spec_identity()
    } else {
        let s = spec_isqrt(n);
        QuatFx {
            x: spec_norm_div(q.x as int, s) as i64,
            y: spec_norm_div(q.y as int, s) as i64,
            z: spec_norm_div(q.z as int, s) as i64,
            w: spec_norm_div(q.w as int, s) as i64,
        }
    }
}

/// Renormalization always yields a near-unit quaternion.
pub proof fn lemma_renormalize_near_unit(q: QuatFx)
    ensures
        spec_quat_renormalize(q).near_unit(),
        abs(spec_quat_renormalize(q).x as int) <= FX_ONE as int,
        abs(spec_quat_renormalize(q).y as int) <= FX_ONE as int,
        abs(spec_quat_renormalize(q).z as int) <= FX_ONE as int,
        abs(spec_quat_renormalize(q).w as int) <= FX_ONE as int,
{
    let n = q.norm_sq();
    assert(0 <= (q.x as int) * (q.x as int) && 0 <= (q.y as int) * (q.y as int) && 0 <= (q.z
        as int) * (q.z as int) && 0 <= (q.w as int) * (q.w as int)) by (nonlinear_arith);
    if n < 250_000_000_000 || n > 4_000_000_000_000 {
        assert(QuatFx::spec_identity().norm_sq() == (FX_ONE as int) * (FX_ONE as int));
    } else {
        lemma_isqrt_exists(n);
        let s = spec_isqrt(n);
        assert((q.x as int) * (q.x as int) <= n && (q.y as int) * (q.y as int) <= n && (q.z
            as int) * (q.z as int) <= n && (q.w as int) * (q.w as int) <= n);
        lemma_comp_le_root(q.x as int, n, s);
        lemma_comp_le_root(q.y as int, n, s);
        lemma_comp_le_root(q.z as int, n, s);
        lemma_comp_le_root(q.w as int, n, s);
        assert(1 <= s) by (nonlinear_arith)
            requires
                is_root(s, n),
                n >= 250_000_000_000,
        ;
        lemma_norm_div_comp(q.x as int, s);
        lemma_norm_div_comp(q.y as int, s);
        lemma_norm_div_comp(q.z as int, s);
        lemma_norm_div_comp(q.w as int, s);
        lemma_renorm_norm_bounds(q.x as int, q.y as int, q.z as int, q.w as int, s);
    }
}

/// Renormalize a quaternion toward unit length.
pub fn quat_renormalize(q: &QuatFx) -> (r: QuatFx)
    requires
        abs(q.x as int) <= 1_000_000_000,
        abs(q.y as int) <= 1_000_000_000,
        abs(q.z as int) <= 1_000_000_000,
        abs(q.w as int) <= 1_000_000_000,
    ensures
        r == spec_quat_renormalize(*q),
        r.near_unit(),
        abs(r.x as int) <= FX_ONE as int,
        abs(r.y as int) <= FX_ONE as int,
        abs(r.z as int) <= FX_ONE as int,
        abs(r.w as int) <= FX_ONE as int,
{
    proof {
        lemma_renormalize_near_unit(*q);
    }
    let n = quat_norm_sq_u128(q);
    if n < 250_000_000_000 || n > 4_000_000_000_000 {
        QuatFx { x: 0, y: 0, z: 0, w: FX_ONE }
    } else {
        let s = isqrt_u128(n);
        proof {
            lemma_isqrt_unique(s as int, n as int);
            assert(1 <= s && s <= 4_000_000_000) by (nonlinear_arith)
                requires
                    is_root(s as int, n as int),
                    250_000_000_000 <= n as int <= 4_000_000_000_000,
            ;
            assert(0 <= (q.x as int) * (q.x as int) && 0 <= (q.y as int) * (q.y as int) && 0 <= (
            q.z as int) * (q.z as int) && 0 <= (q.w as int) * (q.w as int)) by (nonlinear_arith);
            lemma_comp_le_root(q.x as int, n as int, s as int);
            lemma_comp_le_root(q.y as int, n as int, s as int);
            lemma_comp_le_root(q.z as int, n as int, s as int);
            lemma_comp_le_root(q.w as int, n as int, s as int);
        }
        QuatFx {
            x: norm_div(q.x, s),
            y: norm_div(q.y, s),
            z: norm_div(q.z, s),
            w: norm_div(q.w, s),
        }
    }
}

/// Normalization of a vector to unit length; the zero vector, which no
/// well-formed camera pose produces, falls back to the world X axis.
pub open spec fn spec_normalize_vec(v: Vec3Fx) -> Vec3Fx {
    let n = v.norm_sq();
    if n == 0 {
        Vec3Fx::spec_unit_x()
    } else {
        let s = spec_isqrt(n);
        Vec3Fx {
            x: spec_norm_div(v.x as int, s) as i64,
            y: spec_norm_div(v.y as int, s) as i64,
            z: spec_norm_div(v.z as int, s) as i64,
        }
    }
}

/// Normalize a vector to unit length.
pub fn normalize_vec(v: &Vec3Fx) -> (r: Vec3Fx)
    requires
        abs(v.x as int) <= 1_000_000_000,
        abs(v.y as int) <= 1_000_000_000,
        abs(v.z as int) <= 1_000_000_000,
    ensures
        r == spec_normalize_vec(*v),
        abs(r.x as int) <= FX_ONE as int,
        abs(r.y as int) <= FX_ONE as int,
        abs(r.z as int) <= FX_ONE as int,
{
    let n = vec_norm_sq_u128(v);
    if n == 0 {
        Vec3Fx { x: FX_ONE, y: 0, z: 0 }
    } else {
        let s = isqrt_u128(n);
        proof {
            lemma_isqrt_unique(s as int, n as int);
            assert(0 <= (v.x as int) * (v.x as int) <= 1_000_000_000_000_000_000int && 0 <= (v.y
                as int) * (v.y as int) <= 1_000_000_000_000_000_000int && 0 <= (v.z as int) * (v.z
                as int) <= 1_000_000_000_000_000_000int) by (nonlinear_arith)
                requires
                    abs(v.x as int) <= 1_000_000_000,
                    abs(v.y as int) <= 1_000_000_000,
                    abs(v.z as int) <= 1_000_000_000,
            ;
            assert(1 <= s && s <= 4_000_000_000) by (nonlinear_arith)
                requires
                    is_root(s as int, n as int),
                    1 <= n as int <= 3_000_000_000_000_000_000int,
            ;
            lemma_comp_le_root(v.x as int, n as int, s as int);
            lemma_comp_le_root(v.y as int, n as int, s as int);
            lemma_comp_le_root(v.z as int, n as int, s as int);
            lemma_norm_div_comp(v.x as int, s as int);
            lemma_norm_div_comp(v.y as int, s as int);
            lemma_norm_div_comp(v.z as int, s as int);
        }
        Vec3Fx { x: norm_div(v.x, s), y: norm_div(v.y, s), z: norm_div(v.z, s) }
    }
}

/// The fixed-point cross product.
pub open spec fn spec_cross(a: Vec3Fx, b: Vec3Fx) -> Vec3Fx {
    Vec3Fx {
        x: (spec_fx_mul(a.y as int, b.z as int) - spec_fx_mul(a.z as int, b.y as int)) as i64,
        y: (spec_fx_mul(a.z as int, b.x as int) - spec_fx_mul(a.x as int, b.z as int)) as i64,
        z: (spec_fx_mul(a.x as int, b.y as int) - spec_fx_mul(a.y as int, b.x as int)) as i64,
    }
}

/// Fixed-point cross product of two vectors of at most ten units.
pub fn cross_fx(a: &Vec3Fx, b: &Vec3Fx) -> (r: Vec3Fx)
    requires
        abs(a.x as int) <= 10_000_000,
        abs(a.y as int) <= 10_000_000,
        abs(a.z as int) <= 10_000_000,
        abs(b.x as int) <= 10_000_000,
        abs(b.y as int) <= 10_000_000,
        abs(b.z as int) <= 10_000_000,
    ensures
        r == spec_cross(*a, *b),
        abs(r.x as int) <= 200_000_000,
        abs(r.y as int) <= 200_000_000,
        abs(r.z as int) <= 200_000_000,
{
    proof {
        lemma_fx_mul_bound(a.y as int, b.z as int, 10_000_000, 10_000_000);
        lemma_fx_mul_bound(a.z as int, b.y as int, 10_000_000, 10_000_000);
        lemma_fx_mul_bound(a.z as int, b.x as int, 10_000_000, 10_000_000);
        lemma_fx_mul_bound(a.x as int, b.z as int, 10_000_000, 10_000_000);
        lemma_fx_mul_bound(a.x as int, b.y as int, 10_000_000, 10_000_000);
        lemma_fx_mul_bound(a.y as int, b.x as int, 10_000_000, 10_000_000);
    }
    Vec3Fx {
        x: fx_mul(a.y, b.z) - fx_mul(a.z, b.y),
        y: fx_mul(a.z, b.x) - fx_mul(a.x, b.z),
        z: fx_mul(a.x, b.y) - fx_mul(a.y, b.x),
    }
}

/// Rotation of a vector by a quaternion: `v + w*t + u x t` with
/// `t = 2 (u x v)`, `u` the quaternion's vector part.
pub open spec fn spec_rotate_vec(q: QuatFx, v: Vec3Fx) -> Vec3Fx {
    let u = Vec3Fx { x: q.x, y: q.y, z: q.z };
    let c1 = spec_cross(u, v);
    let t = Vec3Fx { x: (2 * c1.x) as i64, y: (2 * c1.y) as i64, z: (2 * c1.z) as i64 };
    let c2 = spec_cross(u, t);
    Vec3Fx {
        x: (v.x + spec_fx_mul(q.w as int, t.x as int) + c2.x) as i64,
        y: (v.y + spec_fx_mul(q.w as int, t.y as int) + c2.y) as i64,
        z: (v.z + spec_fx_mul(q.w as int, t.z as int) + c2.z) as i64,
    }
}

/// Rotate a vector of at most two units by a near-unit quaternion.
pub fn rotate_vec(q: &QuatFx, v: &Vec3Fx) -> (r: Vec3Fx)
    requires
        abs(q.x as int) <= QCOMP_BOUND as int,
        abs(q.y as int) <= QCOMP_BOUND as int,
        abs(q.z as int) <= QCOMP_BOUND as int,
        abs(q.w as int) <= QCOMP_BOUND as int,
        abs(v.x as int) <= 2_000_000,
        abs(v.y as int) <= 2_000_000,
        abs(v.z as int) <= 2_000_000,
    ensures
        r == spec_rotate_vec(*q, *v),
        abs(r.x as int) <= 32_000_000,
        abs(r.y as int) <= 32_000_000,
        abs(r.z as int) <= 32_000_000,
{
    let u = Vec3Fx { x: q.x, y: q.y, z: q.z };
    let c1 = cross_fx(&u, v);
    proof {
        lemma_fx_mul_bound(u.y as int, v.z as int, QCOMP_BOUND as int, 2_000_000);
        lemma_fx_mul_bound(u.z as int, v.y as int, QCOMP_BOUND as int, 2_000_000);
        lemma_fx_mul_bound(u.z as int, v.x as int, QCOMP_BOUND as int, 2_000_000);
        lemma_fx_mul_bound(u.x as int, v.z as int, QCOMP_BOUND as int, 2_000_000);
        lemma_fx_mul_bound(u.x as int, v.y as int, QCOMP_BOUND as int, 2_000_000);
        lemma_fx_mul_bound(u.y as int, v.x as int, QCOMP_BOUND as int, 2_000_000);
    }
    let t = Vec3Fx { x: 2 * c1.x, y: 2 * c1.y, z: 2 * c1.z };
    let c2 = cross_fx(&u, &t);
    proof {
        lemma_fx_mul_bound(u.y as int, t.z as int, QCOMP_BOUND as int, 8_800_000);
        lemma_fx_mul_bound(u.z as int, t.y as int, QCOMP_BOUND as int, 8_800_000);
        lemma_fx_mul_bound(u.z as int, t.x as int, QCOMP_BOUND as int, 8_800_000);
        lemma_fx_mul_bound(u.x as int, t.z as int, QCOMP_BOUND as int, 8_800_000);
        lemma_fx_mul_bound(u.x as int, t.y as int, QCOMP_BOUND as int, 8_800_000);
        lemma_fx_mul_bound(u.y as int, t.x as int, QCOMP_BOUND as int, 8_800_000);
        lemma_fx_mul_bound(q.w as int, t.x as int, QCOMP_BOUND as int, 8_800_000);
        lemma_fx_mul_bound(q.w as int, t.y as int, QCOMP_BOUND as int, 8_800_000);
        lemma_fx_mul_bound(q.w as int, t.z as int, QCOMP_BOUND as int, 8_800_000);
    }
    Vec3Fx {
        x: v.x + fx_mul(q.w, t.x) + c2.x,
        y: v.y + fx_mul(q.w, t.y) + c2.y,
        z: v.z + fx_mul(q.w, t.z) + c2.z,
    }
}

/// The fixed-point Hamilton product.
pub open spec fn spec_quat_mul(a: QuatFx, b: QuatFx) -> QuatFx {
    QuatFx {
        x: (spec_fx_mul(a.w as int, b.x as int) + spec_fx_mul(a.x as int, b.w as int)
            + spec_fx_mul(a.y as int, b.z as int) - spec_fx_mul(a.z as int, b.y as int)) as i64,
        y: (spec_fx_mul(a.w as int, b.y as int) - spec_fx_mul(a.x as int, b.z as int)
            + spec_fx_mul(a.y as int, b.w as int) + spec_fx_mul(a.z as int, b.x as int)) as i64,
        z: (spec_fx_mul(a.w as int, b.z as int) + spec_fx_mul(a.x as int, b.y as int)
            - spec_fx_mul(a.y as int, b.x as int) + spec_fx_mul(a.z as int, b.w as int)) as i64,
        w: (spec_fx_mul(a.w as int, b.w as int) - spec_fx_mul(a.x as int, b.x as int)
            - spec_fx_mul(a.y as int, b.y as int) - spec_fx_mul(a.z as int, b.z as int)) as i64,
    }
}

/// Hamilton product of two quaternions of at most two units per component.
pub fn quat_mul(a: &QuatFx, b: &QuatFx) -> (r: QuatFx)
    requires
        abs(a.x as int) <= 2_000_000,
        abs(a.y as int) <= 2_000_000,
        abs(a.z as int) <= 2_000_000,
        abs(a.w as int) <= 2_000_000,
        abs(b.x as int) <= 2_000_000,
        abs(b.y as int) <= 2_000_000,
        abs(b.z as int) <= 2_000_000,
        abs(b.w as int) <= 2_000_000,
    ensures
        r == spec_quat_mul(*a, *b),
        abs(r.x as int) <= 16_000_000,
        abs(r.y as int) <= 16_000_000,
        abs(r.z as int) <= 16_000_000,
        abs(r.w as int) <= 16_000_000,
{
    proof {
        lemma_fx_mul_bound(a.w as int, b.x as int, 2_000_000, 2_000_000);
        lemma_fx_mul_bound(a.x as int, b.w as int, 2_000_000, 2_000_000);
        lemma_fx_mul_bound(a.y as int, b.z as int, 2_000_000, 2_000_000);
        lemma_fx_mul_bound(a.z as int, b.y as int, 2_000_000, 2_000_000);
        lemma_fx_mul_bound(a.w as int, b.y as int, 2_000_000, 2_000_000);
        lemma_fx_mul_bound(a.x as int, b.z as int, 2_000_000, 2_000_000);
        lemma_fx_mul_bound(a.y as int, b.w as int, 2_000_000, 2_000_000);
        lemma_fx_mul_bound(a.z as int, b.x as int, 2_000_000, 2_000_000);
        lemma_fx_mul_bound(a.w as int, b.z as int, 2_000_000, 2_000_000);
        lemma_fx_mul_bound(a.x as int, b.y as int, 2_000_000, 2_000_000);
        lemma_fx_mul_bound(a.y as int, b.x as int, 2_000_000, 2_000_000);
        lemma_fx_mul_bound(a.z as int, b.w as int, 2_000_000, 2_000_000);
        lemma_fx_mul_bound(a.w as int, b.w as int, 2_000_000, 2_000_000);
        lemma_fx_mul_bound(a.x as int, b.x as int, 2_000_000, 2_000_000);
        lemma_fx_mul_bound(a.y as int, b.y as int, 2_000_000, 2_000_000);
        lemma_fx_mul_bound(a.z as int, b.z as int, 2_000_000, 2_000_000);
    }
    QuatFx {
        x: fx_mul(a.w, b.x) + fx_mul(a.x, b.w) + fx_mul(a.y, b.z) - fx_mul(a.z, b.y),
        y: fx_mul(a.w, b.y) - fx_mul(a.x, b.z) + fx_mul(a.y, b.w) + fx_mul(a.z, b.x),
        z: fx_mul(a.w, b.z) + fx_mul(a.x, b.y) - fx_mul(a.y, b.x) + fx_mul(a.z, b.w),
        w: fx_mul(a.w, b.w) - fx_mul(a.x, b.x) - fx_mul(a.y, b.y) - fx_mul(a.z, b.z),
    }
}

} // verus!
