//! The free-look camera: mouse-look, WASD-relative translation and the
//! cursor-lock gate.
//!
//! Each buffered mouse sample rotates the orientation by a small step about
//! the axis `-dy * right_axis - dx * world_up`, a thousandth of a radian
//! per pixel of delta, and the camera-local right axis is recomputed before
//! the next sample is applied.  Every step ends in a renormalization, so
//! the orientation stays a near-unit quaternion after any sequence of
//! samples.  While the cursor is not locked, samples are still drained but
//! leave the orientation untouched.

use crate::fixed::fx_clamp;
use crate::fixed::fx_div_trunc;
use crate::fixed::fx_mul;
use crate::fixed::lemma_fx_div_trunc_abs;
use crate::fixed::lemma_fx_mul_bound;
use crate::fixed::spec_clamp;
use crate::fixed::spec_fx_mul;
use crate::fixed::FX_ONE;
use crate::geom::cross_fx;
use crate::geom::is_root;
use crate::geom::lemma_isqrt_unique;
use crate::geom::lemma_near_unit_comp_bound;
use crate::geom::lemma_renormalize_near_unit;
use crate::geom::normalize_vec;
use crate::geom::quat_mul;
use crate::geom::quat_renormalize;
use crate::geom::rotate_vec;
use crate::geom::spec_cross;
use crate::geom::spec_isqrt;
use crate::geom::spec_normalize_vec;
use crate::geom::spec_quat_mul;
use crate::geom::spec_quat_renormalize;
use crate::geom::spec_rotate_vec;
use crate::geom::QuatFx;
use crate::geom::Vec3Fx;
use crate::trig::cos_fx;
use crate::trig::sin_fx;
use crate::trig::spec_cos_fx;
use crate::trig::spec_sin_fx;
use vstd::math::abs;
use vstd::prelude::*;

verus! {

/// Largest magnitude of one mouse sample's pixel delta.
pub const MOUSE_DELTA_BOUND: i64 = 10_000;

/// Magnitude bound on a camera or ball position component.
pub const POS_BOUND: i64 = 1_000_000_000_000;

/// The fixed translation step of one held movement key, per tick.
pub const MOVE_STEP: i64 = 100_000;

/// The free-look camera's pose and cursor mode.
#[derive(Clone, Copy, PartialEq, Eq, Structural, Debug)]
pub struct FreeLookCamera {
    pub position: Vec3Fx,
    pub orientation: QuatFx,
    pub cursor_locked: bool,
}

impl FreeLookCamera {
    /// The orientation is a near-unit quaternion and the position is in
    /// world range.
    pub open spec fn wf(self) -> bool {
        &&& self.orientation.near_unit()
        &&& abs(self.position.x as int) <= POS_BOUND
        &&& abs(self.position.y as int) <= POS_BOUND
        &&& abs(self.position.z as int) <= POS_BOUND
    }
}

/// One tick of free-look input: the cursor-lock edge, the drained mouse
/// samples in arrival order, and the held movement keys.
///
/// Bindings: `Escape` toggles the cursor lock; `W`/`S`/`A`/`D` move in the
/// horizontal plane and `R`/`F` rise and descend.
pub struct LookKeys {
    pub toggle_cursor: bool,
    pub mouse: Vec<(i64, i64)>,
    pub forward: bool,
    pub back: bool,
    pub left: bool,
    pub right: bool,
    pub rise: bool,
    pub descend: bool,
}

impl LookKeys {
    /// Every buffered sample's deltas are within the accepted pixel range.
    pub open spec fn mouse_in_range(self) -> bool {
        forall|i: int|
            0 <= i < self.mouse@.len() ==> abs(self.mouse@[i].0 as int) <= MOUSE_DELTA_BOUND
                && abs(self.mouse@[i].1 as int) <= MOUSE_DELTA_BOUND
    }
}

/// The camera-local right axis: the camera's local X direction projected
/// onto the horizontal plane and normalized.
pub open spec fn spec_right_axis(q: QuatFx) -> Vec3Fx {
    let r = spec_rotate_vec(q, Vec3Fx::spec_unit_x());
    spec_normalize_vec(Vec3Fx { x: r.x, y: 0, z: r.z })
}

/// Compute the camera-local right axis.
pub fn right_axis(q: &QuatFx) -> (r: Vec3Fx)
    requires
        q.near_unit(),
    ensures
        r == spec_right_axis(*q),
        abs(r.x as int) <= FX_ONE as int,
        r.y == 0,
        abs(r.z as int) <= FX_ONE as int,
{
    proof {
        lemma_near_unit_comp_bound(*q);
    }
    let rotated = rotate_vec(q, &Vec3Fx { x: FX_ONE, y: 0, z: 0 });
    let flat = Vec3Fx { x: rotated.x, y: 0, z: rotated.z };
    let r = normalize_vec(&flat);
    proof {
        assert(0 <= (flat.x as int) * (flat.x as int) && 0 <= (flat.y as int) * (flat.y as int)
            && 0 <= (flat.z as int) * (flat.z as int)) by (nonlinear_arith);
        if flat.norm_sq() != 0 {
            crate::geom::lemma_isqrt_exists(flat.norm_sq());
            let s = spec_isqrt(flat.norm_sq());
            assert(1 <= s) by (nonlinear_arith)
                requires
                    is_root(s, flat.norm_sq()),
                    flat.norm_sq() >= 1,
            ;
            vstd::arithmetic::div_mod::lemma_div_of0(s);
        }
    }
    r
}

/// One mouse sample applied to an orientation: a rotation about
/// `-dy * right_axis - dx * world_up` by a thousandth of a radian per pixel
/// of delta, followed by renormalization.  A sample with no net rotation
/// leaves the orientation unchanged.
pub open spec fn spec_mouse_step(q: QuatFx, dx: int, dy: int) -> QuatFx {
    let cx = spec_right_axis(q);
    let w = Vec3Fx {
        x: fx_div_trunc(-dy * (cx.x as int), 1000) as i64,
        y: fx_div_trunc(-dx * (FX_ONE as int), 1000) as i64,
        z: fx_div_trunc(-dy * (cx.z as int), 1000) as i64,
    };
    if w.norm_sq() == 0 {
        q
    } else {
        let theta = spec_isqrt(w.norm_sq());
        let axis = spec_normalize_vec(w);
        let half = theta / 2;
        let step = QuatFx {
            x: spec_fx_mul(axis.x as int, spec_sin_fx(half)) as i64,
            y: spec_fx_mul(axis.y as int, spec_sin_fx(half)) as i64,
            z: spec_fx_mul(axis.z as int, spec_sin_fx(half)) as i64,
            w: spec_cos_fx(half) as i64,
        };
        spec_quat_renormalize(spec_quat_mul(step, q))
    }
}

/// A mouse step keeps the orientation near-unit.
pub proof fn lemma_mouse_step_near_unit(q: QuatFx, dx: int, dy: int)
    requires
        q.near_unit(),
    ensures
        spec_mouse_step(q, dx, dy).near_unit(),
{
    let cx = spec_right_axis(q);
    let w = Vec3Fx {
        x: fx_div_trunc(-dy * (cx.x as int), 1000) as i64,
        y: fx_div_trunc(-dx * (FX_ONE as int), 1000) as i64,
        z: fx_div_trunc(-dy * (cx.z as int), 1000) as i64,
    };
    if w.norm_sq() != 0 {
        let theta = spec_isqrt(w.norm_sq());
        let axis = spec_normalize_vec(w);
        let half = theta / 2;
        let step = QuatFx {
            x: spec_fx_mul(axis.x as int, spec_sin_fx(half)) as i64,
            y: spec_fx_mul(axis.y as int, spec_sin_fx(half)) as i64,
            z: spec_fx_mul(axis.z as int, spec_sin_fx(half)) as i64,
            w: spec_cos_fx(half) as i64,
        };
        lemma_renormalize_near_unit(spec_quat_mul(step, q));
    }
}

/// Apply one mouse sample to an orientation.
pub fn mouse_step(q: &QuatFx, dx: i64, dy: i64) -> (r: QuatFx)
    requires
        q.near_unit(),
        abs(dx as int) <= MOUSE_DELTA_BOUND as int,
        abs(dy as int) <= MOUSE_DELTA_BOUND as int,
    ensures
        r == spec_mouse_step(*q, dx as int, dy as int),
        r.near_unit(),
{
    let cx = right_axis(q);
    proof {
        assert(abs(-(dy as int) * (cx.x as int)) <= 10_000_000_000int && abs(
            -(dx as int) * (FX_ONE as int),
        ) <= 10_000_000_000int && abs(-(dy as int) * (cx.z as int)) <= 10_000_000_000int)
            by (nonlinear_arith)
            requires
                abs(dx as int) <= 10_000,
                abs(dy as int) <= 10_000,
                abs(cx.x as int) <= 1_000_000,
                abs(cx.z as int) <= 1_000_000,
        ;
    }
    let wx: i64 = (-dy * cx.x) / 1000;
    let wy: i64 = (-dx * FX_ONE) / 1000;
    let wz: i64 = (-dy * cx.z) / 1000;
    proof {
        lemma_fx_div_trunc_abs(-(dy as int) * (cx.x as int), 1000);
        lemma_fx_div_trunc_abs(-(dx as int) * (FX_ONE as int), 1000);
        lemma_fx_div_trunc_abs(-(dy as int) * (cx.z as int), 1000);
        vstd::arithmetic::div_mod::lemma_div_is_ordered(
            abs(-(dy as int) * (cx.x as int)) as int,
            10_000_000_000int,
            1000,
        );
        vstd::arithmetic::div_mod::lemma_div_is_ordered(
            abs(-(dx as int) * (FX_ONE as int)) as int,
            10_000_000_000int,
            1000,
        );
        vstd::arithmetic::div_mod::lemma_div_is_ordered(
            abs(-(dy as int) * (cx.z as int)) as int,
            10_000_000_000int,
            1000,
        );
    }
    let w = Vec3Fx { x: wx, y: wy, z: wz };
    let n = crate::geom::vec_norm_sq_u128(&w);
    if n == 0 {
        *q
    } else {
        let theta = crate::geom::isqrt_u128(n);
        proof {
            lemma_isqrt_unique(theta as int, n as int);
            assert(0 <= (w.x as int) * (w.x as int) <= 100_000_000_000_000int && 0 <= (w.y
                as int) * (w.y as int) <= 100_000_000_000_000int && 0 <= (w.z as int) * (w.z
                as int) <= 100_000_000_000_000int) by (nonlinear_arith)
                requires
                    abs(w.x as int) <= 10_000_000,
                    abs(w.y as int) <= 10_000_000,
                    abs(w.z as int) <= 10_000_000,
            ;
            assert(theta <= 100_000_000) by (nonlinear_arith)
                requires
                    is_root(theta as int, n as int),
                    n as int <= 300_000_000_000_000int,
            ;
        }
        let axis = normalize_vec(&w);
        let half: i64 = (theta / 2) as i64;
        let sh = sin_fx(half);
        let ch = cos_fx(half);
        proof {
            lemma_fx_mul_bound(axis.x as int, sh as int, FX_ONE as int, FX_ONE as int);
            lemma_fx_mul_bound(axis.y as int, sh as int, FX_ONE as int, FX_ONE as int);
            lemma_fx_mul_bound(axis.z as int, sh as int, FX_ONE as int, FX_ONE as int);
            lemma_near_unit_comp_bound(*q);
        }
        let step = QuatFx {
            x: fx_mul(axis.x, sh),
            y: fx_mul(axis.y, sh),
            z: fx_mul(axis.z, sh),
            w: ch,
        };
        let product = quat_mul(&step, q);
        quat_renormalize(&product)
    }
}

/// A whole tick's mouse samples folded over an orientation, in arrival
/// order.
pub open spec fn spec_mouse_fold(q: QuatFx, ms: Seq<(i64, i64)>) -> QuatFx
    decreases ms.len(),
{
    if ms.len() == 0 {
        q
    } else {
        spec_mouse_fold(spec_mouse_step(q, ms[0].0 as int, ms[0].1 as int), ms.skip(1))
    }
}

/// The orientation stays a near-unit quaternion after an arbitrary
/// sequence of mouse-look updates.
pub proof fn lemma_mouse_fold_near_unit(q: QuatFx, ms: Seq<(i64, i64)>)
    requires
        q.near_unit(),
    ensures
        spec_mouse_fold(q, ms).near_unit(),
    decreases ms.len(),
{
    if ms.len() > 0 {
        lemma_mouse_step_near_unit(q, ms[0].0 as int, ms[0].1 as int);
        lemma_mouse_fold_near_unit(spec_mouse_step(q, ms[0].0 as int, ms[0].1 as int), ms.skip(1));
    }
}

/// Apply a tick's buffered mouse samples in order.
pub fn apply_mouse_samples(q: &QuatFx, samples: &Vec<(i64, i64)>) -> (r: QuatFx)
    requires
        q.near_unit(),
        forall|i: int|
            0 <= i < samples@.len() ==> abs(samples@[i].0 as int) <= MOUSE_DELTA_BOUND as int
                && abs(samples@[i].1 as int) <= MOUSE_DELTA_BOUND as int,
    ensures
        r == spec_mouse_fold(*q, samples@),
        r.near_unit(),
{
    let mut cur: QuatFx = *q;
    let n = samples.len();
    let mut i: usize = 0;
    proof {
        assert(samples@.skip(0) =~= samples@);
    }
    while i < n
        invariant
            0 <= i <= n,
            n == samples@.len(),
            cur.near_unit(),
            spec_mouse_fold(cur, samples@.skip(i as int)) == spec_mouse_fold(*q, samples@),
            forall|j: int|
                0 <= j < samples@.len() ==> abs(samples@[j].0 as int) <= MOUSE_DELTA_BOUND as int
                    && abs(samples@[j].1 as int) <= MOUSE_DELTA_BOUND as int,
        decreases n - i,
    {
        let (dx, dy) = samples[i];
        proof {
            assert(samples@.skip(i as int)[0] == samples@[i as int]);
            assert(samples@.skip(i as int).skip(1) =~= samples@.skip(i as int + 1));
        }
        cur = mouse_step(&cur, dx, dy);
        i = i + 1;
    }
    proof {
        assert(samples@.skip(n as int) =~= Seq::<(i64, i64)>::empty());
    }
    cur
}

/// The translation of one tick: each held key contributes a fixed step
/// along the camera-relative axis, and the result is saturated into world
/// range.  The forward/back pair moves against and along the horizontal
/// cross of the right axis with world-up, the left/right pair along the
/// right axis, and rise/descend along world-up; the first key of each pair
/// wins a tie.
pub open spec fn spec_translate(pos: Vec3Fx, cx: Vec3Fx, cz: Vec3Fx, k: LookKeys) -> Vec3Fx {
    let fz = if k.forward {
        -1
    } else if k.back {
        1
    } else {
        0
    };
    let fx = if k.left {
        -1
    } else if k.right {
        1
    } else {
        0
    };
    let fy = if k.rise {
        1
    } else if k.descend {
        -1
    } else {
        0
    };
    Vec3Fx {
        x: spec_clamp(
            pos.x + fz * spec_fx_mul(MOVE_STEP as int, cz.x as int) + fx * spec_fx_mul(
                MOVE_STEP as int,
                cx.x as int,
            ),
            -POS_BOUND as int,
            POS_BOUND as int,
        ) as i64,
        y: spec_clamp(pos.y + fy * (MOVE_STEP as int), -POS_BOUND as int, POS_BOUND as int) as i64,
        z: spec_clamp(
            pos.z + fz * spec_fx_mul(MOVE_STEP as int, cz.z as int) + fx * spec_fx_mul(
                MOVE_STEP as int,
                cx.z as int,
            ),
            -POS_BOUND as int,
            POS_BOUND as int,
        ) as i64,
    }
}

/// One tick of the free-look camera: the cursor-lock toggle, the mouse
/// samples — consumed on every tick, acted on only while the cursor is
/// locked — and the key translation.
#[verifier::rlimit(80)]
pub fn free_look_tick(cam: &mut FreeLookCamera, keys: &LookKeys)
    requires
        old(cam).wf(),
        keys.mouse_in_range(),
    ensures
        final(cam).wf(),
        final(cam).cursor_locked == if keys.toggle_cursor {
            !old(cam).cursor_locked
        } else {
            old(cam).cursor_locked
        },
        final(cam).orientation == if final(cam).cursor_locked {
            spec_mouse_fold(old(cam).orientation, keys.mouse@)
        } else {
            old(cam).orientation
        },
        final(cam).position == spec_translate(
            old(cam).position,
            spec_right_axis(final(cam).orientation),
            spec_cross(spec_right_axis(final(cam).orientation), Vec3Fx::spec_unit_y()),
            *keys,
        ),
{
    if keys.toggle_cursor {
        cam.cursor_locked = !cam.cursor_locked;
    }
    if cam.cursor_locked {
        cam.orientation = apply_mouse_samples(&cam.orientation, &keys.mouse);
    }
    let cx = right_axis(&cam.orientation);
    let cz = cross_fx(&cx, &Vec3Fx { x: 0, y: FX_ONE, z: 0 });
    proof {
        lemma_fx_mul_bound(MOVE_STEP as int, cz.x as int, MOVE_STEP as int, 200_000_000);
        lemma_fx_mul_bound(MOVE_STEP as int, cz.z as int, MOVE_STEP as int, 200_000_000);
        lemma_fx_mul_bound(MOVE_STEP as int, cx.x as int, MOVE_STEP as int, FX_ONE as int);
        lemma_fx_mul_bound(MOVE_STEP as int, cx.z as int, MOVE_STEP as int, FX_ONE as int);
    }
    let step_zx = fx_mul(MOVE_STEP, cz.x);
    let step_zz = fx_mul(MOVE_STEP, cz.z);
    let step_xx = fx_mul(MOVE_STEP, cx.x);
    let step_xz = fx_mul(MOVE_STEP, cx.z);
    let fz: i64 = if keys.forward {
        -1
    } else if keys.back {
        1
    } else {
        0
    };
    let fx: i64 = if keys.left {
        -1
    } else if keys.right {
        1
    } else {
        0
    };
    let fy: i64 = if keys.rise {
        1
    } else if keys.descend {
        -1
    } else {
        0
    };
    cam.position = Vec3Fx {
        x: fx_clamp(cam.position.x + fz * step_zx + fx * step_xx, -POS_BOUND, POS_BOUND),
        y: fx_clamp(cam.position.y + fy * MOVE_STEP, -POS_BOUND, POS_BOUND),
        z: fx_clamp(cam.position.z + fz * step_zz + fx * step_xz, -POS_BOUND, POS_BOUND),
    };
}

} // verus!
