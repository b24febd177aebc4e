use scenectl::params::ExampleState;
use scenectl::params::ParamKeys;
use scenectl::params::update_params;

fn held(f: impl Fn(&mut ParamKeys)) -> ParamKeys {
    let mut k = ParamKeys::released();
    f(&mut k);
    k
}

#[test]
fn default_state_matches_documented_values() {
    let s = ExampleState::default();
    assert_eq!(s.diffuse_transmission, 500_000);
    assert_eq!(s.specular_transmission, 900_000);
    assert_eq!(s.thickness, 1_800_000);
    assert_eq!(s.ior, 1_500_000);
    assert_eq!(s.perceptual_roughness, 120_000);
    assert_eq!(s.reflectance, 500_000);
    assert!(s.auto_camera);
}

#[test]
fn diffuse_saturates_at_upper_bound() {
    // Hold the diffuse increment for six ticks of 0.1 s: 0.5 + 0.6 clamps
    // to 1.0.
    let mut s = ExampleState::default();
    let k = held(|k| k.diffuse_up = true);
    for _ in 0..6 {
        update_params(&mut s, &k, 100_000);
    }
    assert_eq!(s.diffuse_transmission, 1_000_000);
}

#[test]
fn thickness_saturates_at_lower_bound() {
    let mut s = ExampleState::default();
    let k = held(|k| k.thickness_down = true);
    for _ in 0..30 {
        update_params(&mut s, &k, 100_000);
    }
    assert_eq!(s.thickness, 0);
}

#[test]
fn ior_stays_inside_its_interval() {
    let mut s = ExampleState::default();
    let up = held(|k| k.ior_up = true);
    for _ in 0..40 {
        update_params(&mut s, &up, 100_000);
    }
    assert_eq!(s.ior, 3_000_000);
    let down = held(|k| k.ior_down = true);
    for _ in 0..80 {
        update_params(&mut s, &down, 100_000);
    }
    assert_eq!(s.ior, 1_000_000);
}

#[test]
fn one_largest_tick_saturates_in_one_step() {
    // A single tick of the largest accepted delta (3 s) walks diffuse
    // transmission from 0.5 past 1.0 and clamps it there.
    let mut s = ExampleState::default();
    let k = held(|k| k.diffuse_up = true);
    update_params(&mut s, &k, 3_000_000);
    assert_eq!(s.diffuse_transmission, 1_000_000);
}

#[test]
fn increment_wins_when_both_keys_held() {
    let mut s = ExampleState::default();
    let k = held(|k| {
        k.reflectance_up = true;
        k.reflectance_down = true;
    });
    update_params(&mut s, &k, 100_000);
    assert_eq!(s.reflectance, 600_000);
}

#[test]
fn zero_delta_changes_nothing() {
    let mut s = ExampleState::default();
    let k = held(|k| k.specular_up = true);
    update_params(&mut s, &k, 0);
    assert_eq!(s.specular_transmission, 900_000);
}

#[test]
fn released_keys_leave_every_parameter_alone() {
    let mut s = ExampleState::default();
    let k = ParamKeys::released();
    update_params(&mut s, &k, 250_000);
    assert_eq!(s, ExampleState::default());
}
