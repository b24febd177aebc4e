//! The ball controller: heading-relative velocity commands for the
//! physics-coupled ball, and the follow camera around it.
//!
//! Per tick the angular velocity command is set — never accumulated — from
//! the held movement keys relative to the camera heading; releasing every
//! key commands an exact zero.  A jump edge adds a fixed impulse to the
//! vertical linear velocity, so taps stack.  The camera is repositioned
//! behind the ball from the current right axis, and mouse samples are
//! consumed every tick but steer the orientation only while the cursor is
//! locked.
//!
//! Bindings: `W`/`S`/`A`/`D` drive the ball, `Space` jumps, `Escape`
//! toggles the cursor lock.

use crate::fixed::fx_clamp;
use crate::fixed::lemma_fx_mul_bound;
use crate::fixed::spec_clamp;
use crate::fixed::FX_ONE;
use crate::geom::cross_fx;
use crate::geom::spec_cross;
use crate::geom::QuatFx;
use crate::geom::Vec3Fx;
use crate::look::apply_mouse_samples;
use crate::look::right_axis;
use crate::look::spec_mouse_fold;
use crate::look::spec_right_axis;
use crate::look::FreeLookCamera;
use crate::look::MOUSE_DELTA_BOUND;
use crate::look::POS_BOUND;
use vstd::math::abs;
use vstd::prelude::*;

verus! {

/// Magnitude bound on a velocity component, in micro-units.
pub const VEL_BOUND: i64 = 1_000_000_000_000;

/// The speed factor of the angular velocity command, in whole units.
pub const DRIVE_RATE: i64 = 5;

/// The vertical impulse one jump adds, in micro-units.
pub const JUMP_IMPULSE: i64 = 5_000_000;

/// Height of the follow camera above the ball, in micro-units.
pub const FOLLOW_HEIGHT: i64 = 1_000_000;

/// How many units behind the ball, along the heading cross, the follow
/// camera sits.
pub const FOLLOW_BACK: i64 = 2;

/// The physics state of the controllable ball, written by this controller
/// and integrated by the external physics engine.
#[derive(Clone, Copy, PartialEq, Eq, Structural, Debug)]
pub struct BallPhysics {
    pub position: Vec3Fx,
    pub linear_velocity: Vec3Fx,
    pub angular_velocity: Vec3Fx,
}

impl BallPhysics {
    /// Position and velocities are in world range.
    pub open spec fn wf(self) -> bool {
        &&& abs(self.position.x as int) <= POS_BOUND
        &&& abs(self.position.y as int) <= POS_BOUND
        &&& abs(self.position.z as int) <= POS_BOUND
        &&& abs(self.linear_velocity.x as int) <= VEL_BOUND
        &&& abs(self.linear_velocity.y as int) <= VEL_BOUND
        &&& abs(self.linear_velocity.z as int) <= VEL_BOUND
    }
}

/// One tick of ball-controller input.
pub struct BallKeys {
    pub forward: bool,
    pub back: bool,
    pub left: bool,
    pub right: bool,
    pub jump: bool,
    pub toggle_cursor: bool,
    pub mouse: Vec<(i64, i64)>,
}

impl BallKeys {
    /// Every buffered sample's deltas are within the accepted pixel range.
    pub open spec fn mouse_in_range(self) -> bool {
        forall|i: int|
            0 <= i < self.mouse@.len() ==> abs(self.mouse@[i].0 as int) <= MOUSE_DELTA_BOUND
                && abs(self.mouse@[i].1 as int) <= MOUSE_DELTA_BOUND
    }
}

/// The angular velocity command: set to `-+ DRIVE_RATE` times the right
/// axis for the forward/back pair, plus `+- DRIVE_RATE` times its cross
/// with world-up for the left/right pair; the first key of each pair wins
/// a tie, and no key at all commands an exact zero.
pub open spec fn spec_angular_command(
    cx: Vec3Fx,
    cz: Vec3Fx,
    forward: bool,
    back: bool,
    left: bool,
    right: bool,
) -> Vec3Fx {
    let fx = if forward {
        -DRIVE_RATE as int
    } else if back {
        DRIVE_RATE as int
    } else {
        0
    };
    let fz = if left {
        DRIVE_RATE as int
    } else if right {
        -DRIVE_RATE as int
    } else {
        0
    };
    Vec3Fx {
        x: (fx * (cx.x as int) + fz * (cz.x as int)) as i64,
        y: (fx * (cx.y as int) + fz * (cz.y as int)) as i64,
        z: (fx * (cx.z as int) + fz * (cz.z as int)) as i64,
    }
}

/// Compute the angular velocity command from the heading axes and the held
/// keys.
pub fn angular_command(
    cx: &Vec3Fx,
    cz: &Vec3Fx,
    forward: bool,
    back: bool,
    left: bool,
    right: bool,
) -> (r: Vec3Fx)
    requires
        abs(cx.x as int) <= 2_000_000,
        abs(cx.y as int) <= 2_000_000,
        abs(cx.z as int) <= 2_000_000,
        abs(cz.x as int) <= 2_000_000,
        abs(cz.y as int) <= 2_000_000,
        abs(cz.z as int) <= 2_000_000,
    ensures
        r == spec_angular_command(*cx, *cz, forward, back, left, right),
        !forward && !back && !left && !right ==> r == (Vec3Fx { x: 0, y: 0, z: 0 }),
{
    let fx: i64 = if forward {
        -DRIVE_RATE
    } else if back {
        DRIVE_RATE
    } else {
        0
    };
    let fz: i64 = if left {
        DRIVE_RATE
    } else if right {
        -DRIVE_RATE
    } else {
        0
    };
    proof {
        assert(abs((fx as int) * (cx.x as int)) <= 10_000_000 && abs(
            (fx as int) * (cx.y as int),
        ) <= 10_000_000 && abs((fx as int) * (cx.z as int)) <= 10_000_000 && abs(
            (fz as int) * (cz.x as int),
        ) <= 10_000_000 && abs((fz as int) * (cz.y as int)) <= 10_000_000 && abs(
            (fz as int) * (cz.z as int),
        ) <= 10_000_000) by (nonlinear_arith)
            requires
                -5 <= fx <= 5,
                -5 <= fz <= 5,
                abs(cx.x as int) <= 2_000_000,
                abs(cx.y as int) <= 2_000_000,
                abs(cx.z as int) <= 2_000_000,
                abs(cz.x as int) <= 2_000_000,
                abs(cz.y as int) <= 2_000_000,
                abs(cz.z as int) <= 2_000_000,
        ;
    }
    Vec3Fx {
        x: fx * cx.x + fz * cz.x,
        y: fx * cx.y + fz * cz.y,
        z: fx * cx.z + fz * cz.z,
    }
}

/// The vertical velocity after a possible jump edge: an added impulse,
/// saturated into the velocity range.
pub open spec fn spec_jump(v: int, pressed: bool) -> int {
    if pressed {
        spec_clamp(v + JUMP_IMPULSE, -VEL_BOUND as int, VEL_BOUND as int)
    } else {
        v
    }
}

/// Jumps are additive: two presses from a vertical velocity far enough
/// from the saturation bound — for instance one still rising from an
/// earlier jump — raise it by exactly two impulses, not one.
pub proof fn lemma_jump_additive(v: int)
    requires
        -VEL_BOUND <= v,
        v + 2 * JUMP_IMPULSE <= VEL_BOUND,
    ensures
        spec_jump(spec_jump(v, true), true) == v + 2 * JUMP_IMPULSE,
{
}

/// One tick of the ball controller, in the order the scene runs it: the
/// follow camera is re-derived from the previous heading, the cursor-lock
/// edge is handled, the mouse samples are consumed, and the velocity
/// commands are written.
pub fn deal_input(camera: &mut FreeLookCamera, ball: &mut BallPhysics, keys: &BallKeys)
    requires
        old(camera).wf(),
        old(ball).wf(),
        keys.mouse_in_range(),
    ensures
        final(camera).wf(),
        final(ball).wf(),
        // The follow camera sits behind the ball along the old heading's
        // cross with world-up, raised by the follow height.
        final(camera).position == (Vec3Fx {
            x: spec_clamp(
                old(ball).position.x + FOLLOW_BACK * (spec_cross(
                    spec_right_axis(old(camera).orientation),
                    Vec3Fx::spec_unit_y(),
                ).x as int),
                -POS_BOUND as int,
                POS_BOUND as int,
            ) as i64,
            y: spec_clamp(
                old(ball).position.y + FOLLOW_BACK * (spec_cross(
                    spec_right_axis(old(camera).orientation),
                    Vec3Fx::spec_unit_y(),
                ).y as int) + FOLLOW_HEIGHT,
                -POS_BOUND as int,
                POS_BOUND as int,
            ) as i64,
            z: spec_clamp(
                old(ball).position.z + FOLLOW_BACK * (spec_cross(
                    spec_right_axis(old(camera).orientation),
                    Vec3Fx::spec_unit_y(),
                ).z as int),
                -POS_BOUND as int,
                POS_BOUND as int,
            ) as i64,
        }),
        final(camera).cursor_locked == if keys.toggle_cursor {
            !old(camera).cursor_locked
        } else {
            old(camera).cursor_locked
        },
        final(camera).orientation == if final(camera).cursor_locked {
            spec_mouse_fold(old(camera).orientation, keys.mouse@)
        } else {
            old(camera).orientation
        },
        final(ball).angular_velocity == spec_angular_command(
            spec_right_axis(final(camera).orientation),
            spec_cross(spec_right_axis(final(camera).orientation), Vec3Fx::spec_unit_y()),
            keys.forward,
            keys.back,
            keys.left,
            keys.right,
        ),
        final(ball).linear_velocity.x == old(ball).linear_velocity.x,
        final(ball).linear_velocity.z == old(ball).linear_velocity.z,
        final(ball).linear_velocity.y as int == spec_jump(
            old(ball).linear_velocity.y as int,
            keys.jump,
        ),
        !keys.forward && !keys.back && !keys.left && !keys.right ==> final(ball).angular_velocity
            == (Vec3Fx { x: 0, y: 0, z: 0 }),
        final(ball).position == old(ball).position,
{
    let cx0 = right_axis(&camera.orientation);
    let cz0 = cross_fx(&cx0, &Vec3Fx { x: 0, y: FX_ONE, z: 0 });
    camera.position = Vec3Fx {
        x: fx_clamp(ball.position.x + FOLLOW_BACK * cz0.x, -POS_BOUND, POS_BOUND),
        y: fx_clamp(ball.position.y + FOLLOW_BACK * cz0.y + FOLLOW_HEIGHT, -POS_BOUND, POS_BOUND),
        z: fx_clamp(ball.position.z + FOLLOW_BACK * cz0.z, -POS_BOUND, POS_BOUND),
    };
    if keys.toggle_cursor {
        camera.cursor_locked = !camera.cursor_locked;
    }
    if camera.cursor_locked {
        camera.orientation = apply_mouse_samples(&camera.orientation, &keys.mouse);
    }
    let cx = right_axis(&camera.orientation);
    let up = Vec3Fx { x: 0, y: FX_ONE, z: 0 };
    let cz = cross_fx(&cx, &up);
    proof {
        lemma_fx_mul_bound(cx.y as int, up.z as int, FX_ONE as int, FX_ONE as int);
        lemma_fx_mul_bound(cx.z as int, up.y as int, FX_ONE as int, FX_ONE as int);
        lemma_fx_mul_bound(cx.z as int, up.x as int, FX_ONE as int, FX_ONE as int);
        lemma_fx_mul_bound(cx.x as int, up.z as int, FX_ONE as int, FX_ONE as int);
        lemma_fx_mul_bound(cx.x as int, up.y as int, FX_ONE as int, FX_ONE as int);
        lemma_fx_mul_bound(cx.y as int, up.x as int, FX_ONE as int, FX_ONE as int);
    }
    ball.angular_velocity = angular_command(
        &cx,
        &cz,
        keys.forward,
        keys.back,
        keys.left,
        keys.right,
    );
    if keys.jump {
        ball.linear_velocity = Vec3Fx {
            x: ball.linear_velocity.x,
            y: fx_clamp(ball.linear_velocity.y + JUMP_IMPULSE, -VEL_BOUND, VEL_BOUND),
            z: ball.linear_velocity.z,
        };
    }
}

} // verus!
