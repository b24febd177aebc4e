//! The orbiting camera: rotation and distance-clamped dolly around the
//! world origin.
//!
//! The camera starts in automatic orbit.  The first tick on which a manual
//! rotation key is held switches it to manual override, and there is no way
//! back within a session.  Rotation turns the camera's position about the
//! world-up axis; zooming scales the distance from the origin by `e^(-dt)`
//! or `e^(+dt)`, refusing any step that would leave the documented distance
//! interval.
//!
//! Bindings: the left/right arrow keys rotate, the up arrow zooms in, the
//! down arrow zooms out.

use crate::fixed::fx_mul;
use crate::fixed::lemma_fx_mul_bound;
use crate::fixed::lemma_fx_mul_ge_one;
use crate::fixed::lemma_fx_mul_le_one;
use crate::fixed::spec_fx_mul;
use crate::fixed::FX_ONE;
use crate::geom::Vec3Fx;
use crate::params::ExampleState;
use crate::params::DT_MAX;
use crate::trig::cos_fx;
use crate::trig::exp_fx;
use crate::trig::exp_neg_fx;
use crate::trig::spec_exp_fx;
use crate::trig::spec_exp_neg_fx;
use crate::trig::lemma_wrap_angle_range;
use crate::trig::sin_fx;
use crate::trig::spec_cos_fx;
use crate::trig::spec_sin_fx;
use crate::trig::spec_wrap_angle;
use crate::trig::wrap_angle;
use crate::trig::FX_TWO_PI;
use vstd::arithmetic::div_mod::lemma_div_is_ordered_by_denominator;
use vstd::arithmetic::div_mod::lemma_div_pos_is_pos;
use vstd::prelude::*;

verus! {

/// Closest the camera may come to the origin, in micro-units.
pub const MIN_DIST: i64 = 2_000_000;

/// Farthest the camera may move from the origin, in micro-units.
pub const MAX_DIST: i64 = 25_000_000;

/// Auto-rotation moves at a quarter radian per second: a tick's automatic
/// step is `dt / AUTO_RATE_DIV`.
pub const AUTO_RATE_DIV: i64 = 4;

/// The orbit camera's pose: the accumulated angle about the world-up axis,
/// wrapped into one turn, and the distance from the origin, both in
/// micro-units.  Its world position is the initial direction from the
/// origin, swung by `yaw` about world-up and scaled to `distance`.
#[derive(Clone, Copy, PartialEq, Eq, Structural, Debug)]
pub struct OrbitCamera {
    pub yaw: i64,
    pub distance: i64,
}

/// The keys of one orbit tick.
#[derive(Clone, Copy, PartialEq, Eq, Structural, Debug)]
pub struct OrbitKeys {
    pub rotate_left: bool,
    pub rotate_right: bool,
    pub zoom_in: bool,
    pub zoom_out: bool,
}

impl OrbitCamera {
    /// The yaw is wrapped into one turn and the distance sits inside the
    /// documented interval.
    pub open spec fn wf(self) -> bool {
        &&& 0 <= self.yaw < FX_TWO_PI
        &&& MIN_DIST <= self.distance <= MAX_DIST
    }
}

/// Whether the camera is still in automatic orbit after a tick: a manual
/// rotation key ends it for good.
pub open spec fn spec_orbit_auto(auto: bool, k: OrbitKeys) -> bool {
    auto && !k.rotate_left && !k.rotate_right
}

/// The yaw after a tick: a manual step of `dt` while a rotation key is
/// held, else the slow automatic step while still in automatic orbit, else
/// rest; always wrapped into one turn.
pub open spec fn spec_orbit_yaw(yaw: int, auto: bool, k: OrbitKeys, dt: int) -> int {
    let step = if k.rotate_left {
        dt
    } else if k.rotate_right {
        -dt
    } else if auto {
        dt / (AUTO_RATE_DIV as int)
    } else {
        0
    };
    spec_wrap_angle(yaw + step)
}

/// The distance after a tick: scaled by `e^(-dt)` zooming in or `e^(+dt)`
/// zooming out, refusing a step past the documented interval; zoom-in wins
/// a tie.
pub open spec fn spec_orbit_distance(d: int, k: OrbitKeys, dt: int) -> int {
    if k.zoom_in {
        let c = spec_fx_mul(d, spec_exp_neg_fx(dt));
        if c >= MIN_DIST {
            c
        } else {
            d
        }
    } else if k.zoom_out {
        let c = spec_fx_mul(d, spec_exp_fx(dt));
        if c <= MAX_DIST {
            c
        } else {
            d
        }
    } else {
        d
    }
}

/// The exponential factors stay on the side of one unit their sign says,
/// whatever the argument.
pub proof fn lemma_exp_factor_bounds(x: int)
    ensures
        FX_ONE <= spec_exp_fx(x),
        0 <= spec_exp_neg_fx(x) <= FX_ONE,
{
    lemma_div_pos_is_pos((FX_ONE as int) * (FX_ONE as int), spec_exp_fx(x));
    lemma_div_is_ordered_by_denominator(
        (FX_ONE as int) * (FX_ONE as int),
        FX_ONE as int,
        spec_exp_fx(x),
    );
}

/// A rotation step always lands inside one turn.
pub proof fn lemma_orbit_yaw_range(yaw: int, auto: bool, k: OrbitKeys, dt: int)
    ensures
        0 <= spec_orbit_yaw(yaw, auto, k, dt) < FX_TWO_PI,
{
    if k.rotate_left {
        lemma_wrap_angle_range(yaw + dt);
    } else if k.rotate_right {
        lemma_wrap_angle_range(yaw + -dt);
    } else if auto {
        lemma_wrap_angle_range(yaw + dt / (AUTO_RATE_DIV as int));
    } else {
        lemma_wrap_angle_range(yaw + 0);
    }
}

/// A zoom step never leaves the documented distance interval.
pub proof fn lemma_orbit_distance_wf(d: int, k: OrbitKeys, dt: int)
    requires
        MIN_DIST <= d <= MAX_DIST,
    ensures
        MIN_DIST <= spec_orbit_distance(d, k, dt) <= MAX_DIST,
{
    lemma_exp_factor_bounds(dt);
    if k.zoom_in {
        lemma_fx_mul_le_one(d, spec_exp_neg_fx(dt));
    } else if k.zoom_out {
        lemma_fx_mul_ge_one(d, spec_exp_fx(dt));
    }
}

/// One orbit tick: the manual-override transition, the rotation step and
/// the distance-clamped dolly.
pub fn orbit_tick(cam: &mut OrbitCamera, state: &mut ExampleState, keys: &OrbitKeys, dt: i64)
    requires
        0 <= dt <= DT_MAX,
        old(cam).wf(),
    ensures
        final(cam).wf(),
        final(state).auto_camera == spec_orbit_auto(old(state).auto_camera, *keys),
        final(cam).yaw == spec_orbit_yaw(old(cam).yaw as int, old(state).auto_camera, *keys, dt as int),
        final(cam).distance == spec_orbit_distance(old(cam).distance as int, *keys, dt as int),
        !old(state).auto_camera ==> !final(state).auto_camera,
        *final(state) == (ExampleState { auto_camera: final(state).auto_camera, ..*old(state) }),
{
    let auto0 = state.auto_camera;
    if keys.rotate_left || keys.rotate_right {
        state.auto_camera = false;
    }
    let step: i64 = if keys.rotate_left {
        dt
    } else if keys.rotate_right {
        -dt
    } else if auto0 {
        dt / AUTO_RATE_DIV
    } else {
        0
    };
    cam.yaw = wrap_angle(cam.yaw + step);
    if keys.zoom_in {
        let f = exp_neg_fx(dt);
        let c = fx_mul(cam.distance, f);
        proof {
            lemma_fx_mul_le_one(cam.distance as int, f as int);
        }
        if c >= MIN_DIST {
            cam.distance = c;
        }
    } else if keys.zoom_out {
        let f = exp_fx(dt);
        let c = fx_mul(cam.distance, f);
        proof {
            lemma_fx_mul_ge_one(cam.distance as int, f as int);
        }
        if c <= MAX_DIST {
            cam.distance = c;
        }
    }
}

/// The orbit camera's world position: the fixed elevation direction —
/// given by its horizontal and vertical unit components — swung by the yaw
/// about world-up and scaled to the distance.  Rotation moves the position
/// around the origin; the camera's own orientation is the engine-side
/// look-at toward the origin.
pub open spec fn spec_orbit_position(cam: OrbitCamera, elev_cos: int, elev_sin: int) -> Vec3Fx {
    let radius = spec_fx_mul(cam.distance as int, elev_cos);
    Vec3Fx {
        x: spec_fx_mul(radius, spec_cos_fx(cam.yaw as int)) as i64,
        y: spec_fx_mul(cam.distance as int, elev_sin) as i64,
        z: spec_fx_mul(radius, spec_sin_fx(cam.yaw as int)) as i64,
    }
}

/// Compute the orbit camera's world position from its yaw and distance.
pub fn orbit_position(cam: &OrbitCamera, elev_cos: i64, elev_sin: i64) -> (r: Vec3Fx)
    requires
        cam.wf(),
        0 <= elev_cos <= FX_ONE,
        -FX_ONE <= elev_sin <= FX_ONE,
    ensures
        r == spec_orbit_position(*cam, elev_cos as int, elev_sin as int),
{
    proof {
        lemma_fx_mul_bound(cam.distance as int, elev_cos as int, MAX_DIST as int, FX_ONE as int);
    }
    let radius = fx_mul(cam.distance, elev_cos);
    let cy = cos_fx(cam.yaw);
    let sy = sin_fx(cam.yaw);
    proof {
        lemma_fx_mul_bound(radius as int, cy as int, MAX_DIST as int, FX_ONE as int);
        lemma_fx_mul_bound(radius as int, sy as int, MAX_DIST as int, FX_ONE as int);
        lemma_fx_mul_bound(cam.distance as int, elev_sin as int, MAX_DIST as int, FX_ONE as int);
    }
    Vec3Fx { x: fx_mul(radius, cy), y: fx_mul(cam.distance, elev_sin), z: fx_mul(radius, sy) }
}

/// The orbit camera run over a whole sequence of ticks, with the
/// automatic-orbit flag threaded through.
pub open spec fn spec_orbit_run(
    cam: OrbitCamera,
    auto: bool,
    ticks: Seq<(OrbitKeys, int)>,
) -> (OrbitCamera, bool)
    decreases ticks.len(),
{
    if ticks.len() == 0 {
        (cam, auto)
    } else {
        let k = ticks[0].0;
        let dt = ticks[0].1;
        let next = OrbitCamera {
            yaw: spec_orbit_yaw(cam.yaw as int, auto, k, dt) as i64,
            distance: spec_orbit_distance(cam.distance as int, k, dt) as i64,
        };
        spec_orbit_run(next, spec_orbit_auto(auto, k), ticks.skip(1))
    }
}

/// Manual override is permanent: once the automatic orbit has ended, no
/// later input sequence — including releasing every key — brings it back
/// within the session.
pub proof fn lemma_manual_override_permanent(
    cam: OrbitCamera,
    auto: bool,
    ticks: Seq<(OrbitKeys, int)>,
)
    requires
        !auto,
    ensures
        !spec_orbit_run(cam, auto, ticks).1,
    decreases ticks.len(),
{
    if ticks.len() > 0 {
        let k = ticks[0].0;
        let dt = ticks[0].1;
        let next = OrbitCamera {
            yaw: spec_orbit_yaw(cam.yaw as int, auto, k, dt) as i64,
            distance: spec_orbit_distance(cam.distance as int, k, dt) as i64,
        };
        lemma_manual_override_permanent(next, spec_orbit_auto(auto, k), ticks.skip(1));
    }
}

/// The distance invariant: after any sequence of zoom ticks with
/// nonnegative frame deltas, the distance from the origin stays inside the
/// documented interval.
pub proof fn lemma_orbit_distance_bounded(
    cam: OrbitCamera,
    auto: bool,
    ticks: Seq<(OrbitKeys, int)>,
)
    requires
        cam.wf(),
    ensures
        spec_orbit_run(cam, auto, ticks).0.wf(),
    decreases ticks.len(),
{
    if ticks.len() > 0 {
        let k = ticks[0].0;
        let dt = ticks[0].1;
        let next = OrbitCamera {
            yaw: spec_orbit_yaw(cam.yaw as int, auto, k, dt) as i64,
            distance: spec_orbit_distance(cam.distance as int, k, dt) as i64,
        };
        lemma_orbit_yaw_range(cam.yaw as int, auto, k, dt);
        lemma_orbit_distance_wf(cam.distance as int, k, dt);
        lemma_orbit_distance_bounded(next, spec_orbit_auto(auto, k), ticks.skip(1));
    }
}

} // verus!
