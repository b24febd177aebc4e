use scenectl::orbit::orbit_position;
use scenectl::orbit::OrbitCamera;
use scenectl::orbit::OrbitKeys;
use scenectl::orbit::orbit_tick;
use scenectl::orbit::MAX_DIST;
use scenectl::orbit::MIN_DIST;
use scenectl::params::ExampleState;

fn no_keys() -> OrbitKeys {
    OrbitKeys { rotate_left: false, rotate_right: false, zoom_in: false, zoom_out: false }
}

#[test]
fn zoom_out_one_tick_from_three_units() {
    // From 3.0 units, one zoom-out tick of dt = 0.1 scales the distance by
    // e^0.1: about 3.3155, well inside the documented interval.
    let mut cam = OrbitCamera { yaw: 0, distance: 3_000_000 };
    let mut state = ExampleState::default();
    let keys = OrbitKeys { zoom_out: true, ..no_keys() };
    orbit_tick(&mut cam, &mut state, &keys, 100_000);
    assert!(cam.distance > 3_310_000 && cam.distance < 3_320_000);
    assert!(cam.distance >= MIN_DIST && cam.distance <= MAX_DIST);
}

#[test]
fn zoom_in_refuses_to_pass_the_minimum() {
    let mut cam = OrbitCamera { yaw: 0, distance: MIN_DIST };
    let mut state = ExampleState::default();
    let keys = OrbitKeys { zoom_in: true, ..no_keys() };
    orbit_tick(&mut cam, &mut state, &keys, 100_000);
    assert_eq!(cam.distance, MIN_DIST);
}

#[test]
fn zoom_out_refuses_to_pass_the_maximum() {
    let mut cam = OrbitCamera { yaw: 0, distance: MAX_DIST };
    let mut state = ExampleState::default();
    let keys = OrbitKeys { zoom_out: true, ..no_keys() };
    orbit_tick(&mut cam, &mut state, &keys, 100_000);
    assert_eq!(cam.distance, MAX_DIST);
}

#[test]
fn distance_stays_bounded_under_a_long_zoom_sequence() {
    let mut cam = OrbitCamera { yaw: 0, distance: 7_000_000 };
    let mut state = ExampleState::default();
    let zoom_out = OrbitKeys { zoom_out: true, ..no_keys() };
    let zoom_in = OrbitKeys { zoom_in: true, ..no_keys() };
    for _ in 0..50 {
        orbit_tick(&mut cam, &mut state, &zoom_out, 300_000);
        assert!(cam.distance >= MIN_DIST && cam.distance <= MAX_DIST);
    }
    for _ in 0..80 {
        orbit_tick(&mut cam, &mut state, &zoom_in, 300_000);
        assert!(cam.distance >= MIN_DIST && cam.distance <= MAX_DIST);
    }
}

#[test]
fn zoom_in_wins_when_both_zoom_keys_are_held() {
    let mut cam = OrbitCamera { yaw: 0, distance: 7_000_000 };
    let mut state = ExampleState::default();
    let keys = OrbitKeys { zoom_in: true, zoom_out: true, ..no_keys() };
    orbit_tick(&mut cam, &mut state, &keys, 100_000);
    // 7.0 * e^-0.1 is about 6.334: the camera moved in, not out.
    assert!(cam.distance > 6_300_000 && cam.distance < 6_400_000);
}

#[test]
fn manual_override_is_permanent() {
    let mut cam = OrbitCamera { yaw: 0, distance: 7_000_000 };
    let mut state = ExampleState::default();
    assert!(state.auto_camera);
    let keys = OrbitKeys { rotate_left: true, ..no_keys() };
    orbit_tick(&mut cam, &mut state, &keys, 100_000);
    assert!(!state.auto_camera);
    // Releasing every key never brings the automatic orbit back.
    for _ in 0..25 {
        orbit_tick(&mut cam, &mut state, &no_keys(), 100_000);
        assert!(!state.auto_camera);
    }
}

#[test]
fn auto_orbit_advances_at_a_quarter_rate() {
    let mut cam = OrbitCamera { yaw: 0, distance: 7_000_000 };
    let mut state = ExampleState::default();
    orbit_tick(&mut cam, &mut state, &no_keys(), 100_000);
    assert_eq!(cam.yaw, 25_000);
    assert!(state.auto_camera);
}

#[test]
fn orbit_position_follows_yaw_and_distance() {
    // At yaw zero with a horizontal elevation direction, the camera sits
    // on the X axis at exactly its distance from the origin.
    let cam = OrbitCamera { yaw: 0, distance: 7_000_000 };
    let p = orbit_position(&cam, 1_000_000, 0);
    assert_eq!(p.x, 7_000_000);
    assert_eq!(p.y, 0);
    assert!(p.z.abs() < 10_000);
    // A tilted elevation direction raises the camera by its vertical
    // share of the distance.
    let p2 = orbit_position(&cam, 800_000, 600_000);
    assert_eq!(p2.y, 4_200_000);
    assert_eq!(p2.x, 5_600_000);
}

#[test]
fn manual_rotation_uses_the_whole_delta_and_wraps() {
    let mut cam = OrbitCamera { yaw: 0, distance: 7_000_000 };
    let mut state = ExampleState::default();
    let right = OrbitKeys { rotate_right: true, ..no_keys() };
    orbit_tick(&mut cam, &mut state, &right, 100_000);
    // A right rotation of 0.1 rad from zero wraps to just under one turn.
    assert_eq!(cam.yaw, 6_283_185 - 100_000);
}
