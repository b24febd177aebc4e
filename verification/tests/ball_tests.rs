use scenectl::ball::BallKeys;
use scenectl::ball::BallPhysics;
use scenectl::ball::deal_input;
use scenectl::geom::QuatFx;
use scenectl::geom::Vec3Fx;
use scenectl::look::FreeLookCamera;

fn identity_camera(locked: bool) -> FreeLookCamera {
    FreeLookCamera {
        position: Vec3Fx { x: 0, y: 0, z: 0 },
        orientation: QuatFx { x: 0, y: 0, z: 0, w: 1_000_000 },
        cursor_locked: locked,
    }
}

fn resting_ball() -> BallPhysics {
    BallPhysics {
        position: Vec3Fx { x: 0, y: 0, z: 0 },
        linear_velocity: Vec3Fx { x: 0, y: 0, z: 0 },
        angular_velocity: Vec3Fx { x: 0, y: 0, z: 0 },
    }
}

fn no_keys() -> BallKeys {
    BallKeys {
        forward: false,
        back: false,
        left: false,
        right: false,
        jump: false,
        toggle_cursor: false,
        mouse: Vec::new(),
    }
}

#[test]
fn no_movement_key_commands_exact_zero() {
    let mut cam = identity_camera(false);
    let mut ball = resting_ball();
    ball.angular_velocity = Vec3Fx { x: 123, y: -456, z: 789 };
    for _ in 0..4 {
        deal_input(&mut cam, &mut ball, &no_keys());
        assert_eq!(ball.angular_velocity, Vec3Fx { x: 0, y: 0, z: 0 });
    }
}

#[test]
fn forward_drives_against_the_right_axis() {
    // With the identity orientation the right axis is the world X axis, so
    // holding forward commands an angular velocity of exactly -5 X.
    let mut cam = identity_camera(false);
    let mut ball = resting_ball();
    let keys = BallKeys { forward: true, ..no_keys() };
    deal_input(&mut cam, &mut ball, &keys);
    assert_eq!(ball.angular_velocity, Vec3Fx { x: -5_000_000, y: 0, z: 0 });
}

#[test]
fn left_drives_along_the_heading_cross() {
    let mut cam = identity_camera(false);
    let mut ball = resting_ball();
    let keys = BallKeys { left: true, ..no_keys() };
    deal_input(&mut cam, &mut ball, &keys);
    assert_eq!(ball.angular_velocity, Vec3Fx { x: 0, y: 0, z: 5_000_000 });
}

#[test]
fn forward_wins_over_back() {
    let mut cam = identity_camera(false);
    let mut ball = resting_ball();
    let keys = BallKeys { forward: true, back: true, ..no_keys() };
    deal_input(&mut cam, &mut ball, &keys);
    assert_eq!(ball.angular_velocity, Vec3Fx { x: -5_000_000, y: 0, z: 0 });
}

#[test]
fn jumps_stack_while_already_rising() {
    // Two presses in consecutive ticks on top of an existing +5 vertical
    // velocity: each press adds exactly +5 more.
    let mut cam = identity_camera(false);
    let mut ball = resting_ball();
    ball.linear_velocity.y = 5_000_000;
    let keys = BallKeys { jump: true, ..no_keys() };
    deal_input(&mut cam, &mut ball, &keys);
    assert_eq!(ball.linear_velocity.y, 10_000_000);
    deal_input(&mut cam, &mut ball, &keys);
    assert_eq!(ball.linear_velocity.y, 15_000_000);
}

#[test]
fn jump_does_not_touch_horizontal_velocity() {
    let mut cam = identity_camera(false);
    let mut ball = resting_ball();
    ball.linear_velocity = Vec3Fx { x: 44, y: 0, z: -55 };
    let keys = BallKeys { jump: true, ..no_keys() };
    deal_input(&mut cam, &mut ball, &keys);
    assert_eq!(ball.linear_velocity, Vec3Fx { x: 44, y: 5_000_000, z: -55 });
}

#[test]
fn follow_camera_sits_behind_and_above_the_ball() {
    // Identity heading: the cross of X with world-up is Z, so the camera
    // lands at ball + 2 Z + Y.
    let mut cam = identity_camera(false);
    let mut ball = resting_ball();
    ball.position = Vec3Fx { x: 1_000_000, y: -500_000, z: 2_000_000 };
    deal_input(&mut cam, &mut ball, &no_keys());
    assert_eq!(
        cam.position,
        Vec3Fx { x: 1_000_000, y: 500_000, z: 4_000_000 }
    );
}

#[test]
fn cursor_toggle_gates_the_mouse_samples() {
    // Unlocked: samples are consumed but do not rotate.
    let mut cam = identity_camera(false);
    let mut ball = resting_ball();
    let keys = BallKeys { mouse: vec![(200, 100), (-50, 30)], ..no_keys() };
    deal_input(&mut cam, &mut ball, &keys);
    assert_eq!(cam.orientation, QuatFx { x: 0, y: 0, z: 0, w: 1_000_000 });
    // Locked: the same samples change the orientation, and it stays a
    // near-unit quaternion.
    let mut cam2 = identity_camera(true);
    let keys2 = BallKeys { mouse: vec![(200, 100), (-50, 30)], ..no_keys() };
    deal_input(&mut cam2, &mut ball, &keys2);
    assert_ne!(cam2.orientation, QuatFx { x: 0, y: 0, z: 0, w: 1_000_000 });
    let q = cam2.orientation;
    let n = (q.x as i128) * (q.x as i128) + (q.y as i128) * (q.y as i128)
        + (q.z as i128) * (q.z as i128) + (q.w as i128) * (q.w as i128);
    assert!((n - 1_000_000_000_000i128).abs() <= 10_000_000);
}
