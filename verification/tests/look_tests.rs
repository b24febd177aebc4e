use scenectl::geom::QuatFx;
use scenectl::geom::Vec3Fx;
use scenectl::look::FreeLookCamera;
use scenectl::look::LookKeys;
use scenectl::look::free_look_tick;
use scenectl::look::mouse_step;

fn identity_camera(locked: bool) -> FreeLookCamera {
    FreeLookCamera {
        position: Vec3Fx { x: 0, y: 0, z: 0 },
        orientation: QuatFx { x: 0, y: 0, z: 0, w: 1_000_000 },
        cursor_locked: locked,
    }
}

fn no_keys() -> LookKeys {
    LookKeys {
        toggle_cursor: false,
        mouse: Vec::new(),
        forward: false,
        back: false,
        left: false,
        right: false,
        rise: false,
        descend: false,
    }
}

fn norm_sq(q: &QuatFx) -> i128 {
    (q.x as i128) * (q.x as i128) + (q.y as i128) * (q.y as i128) + (q.z as i128) * (q.z as i128)
        + (q.w as i128) * (q.w as i128)
}

#[test]
fn orientation_stays_near_unit_through_many_samples() {
    let mut q = QuatFx { x: 0, y: 0, z: 0, w: 1_000_000 };
    let mut t: i64 = 1;
    for _ in 0..300 {
        let dx = (t * 37) % 2_001 - 1_000;
        let dy = (t * 53) % 1_501 - 750;
        q = mouse_step(&q, dx, dy);
        let n = norm_sq(&q);
        assert!((n - 1_000_000_000_000i128).abs() <= 10_000_000);
        t += 1;
    }
}

#[test]
fn zero_delta_sample_is_a_no_op() {
    let q = QuatFx { x: 0, y: 0, z: 0, w: 1_000_000 };
    let r = mouse_step(&q, 0, 0);
    assert_eq!(r, q);
}

#[test]
fn cursor_toggle_flips_each_edge() {
    let mut cam = identity_camera(false);
    let toggle = LookKeys { toggle_cursor: true, ..no_keys() };
    free_look_tick(&mut cam, &toggle);
    assert!(cam.cursor_locked);
    free_look_tick(&mut cam, &toggle);
    assert!(!cam.cursor_locked);
}

#[test]
fn unlocked_camera_ignores_mouse_motion() {
    let mut cam = identity_camera(false);
    let keys = LookKeys { mouse: vec![(500, -200), (40, 90)], ..no_keys() };
    free_look_tick(&mut cam, &keys);
    assert_eq!(cam.orientation, QuatFx { x: 0, y: 0, z: 0, w: 1_000_000 });
}

#[test]
fn locked_camera_rotates_and_stays_well_formed() {
    let mut cam = identity_camera(true);
    let keys = LookKeys { mouse: vec![(500, -200), (40, 90)], ..no_keys() };
    free_look_tick(&mut cam, &keys);
    assert_ne!(cam.orientation, QuatFx { x: 0, y: 0, z: 0, w: 1_000_000 });
    let n = norm_sq(&cam.orientation);
    assert!((n - 1_000_000_000_000i128).abs() <= 10_000_000);
}

#[test]
fn translation_moves_fixed_steps_along_the_axes() {
    // Identity heading: right axis is X, its cross with world-up is Z.
    let mut cam = identity_camera(false);
    let keys = LookKeys { right: true, ..no_keys() };
    free_look_tick(&mut cam, &keys);
    assert_eq!(cam.position, Vec3Fx { x: 100_000, y: 0, z: 0 });
    let keys2 = LookKeys { forward: true, rise: true, ..no_keys() };
    free_look_tick(&mut cam, &keys2);
    assert_eq!(cam.position, Vec3Fx { x: 100_000, y: 100_000, z: -100_000 });
}

#[test]
fn first_key_of_a_pair_wins_a_tie() {
    let mut cam = identity_camera(false);
    let keys = LookKeys { forward: true, back: true, ..no_keys() };
    free_look_tick(&mut cam, &keys);
    assert_eq!(cam.position, Vec3Fx { x: 0, y: 0, z: -100_000 });
}
