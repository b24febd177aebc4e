use scenectl::flicker::flicker_system;

#[test]
fn intensity_at_time_zero_by_direct_evaluation() {
    // At s = 0 every cosine is exactly one, so each perturbation scalar is
    // 0.0125 + 0.025 = 0.0375 and the intensity is
    // 1600 + 3000 * 0.1125 = 1937.5.
    let f = flicker_system(0);
    assert_eq!(f.intensity, 1_937_500_000);
}

#[test]
fn poses_at_time_zero() {
    let f = flicker_system(0);
    // a = b = c = 37_500 micro-units at time zero.
    assert_eq!(f.flame_translation.x, -1_037_500);
    assert_eq!(f.flame_translation.y, 1_230_000);
    assert_eq!(f.flame_translation.z, -37_500);
    assert_eq!(f.flame_look_target.x, -1_037_500);
    assert_eq!(f.flame_look_target.y, 1_700_000 - 37_500);
    assert_eq!(f.flame_look_target.z, -37_500);
    // The light is not perturbed vertically.
    assert_eq!(f.light_translation.x, -1_037_500);
    assert_eq!(f.light_translation.y, 1_700_000);
    assert_eq!(f.light_translation.z, -37_500);
}

#[test]
fn generator_is_pure() {
    // Bit-identical outputs for equal elapsed times, across several times.
    for s in [0i64, 137_000, 1_000_000, 31_415_926, 99_000_000_000_000] {
        let f1 = flicker_system(s);
        let f2 = flicker_system(s);
        assert_eq!(f1, f2);
    }
}

#[test]
fn intensity_stays_inside_the_harmonic_envelope() {
    // |a + b + c| <= 0.1125, so the intensity stays within 337.5 of 1600.
    let mut s: i64 = 0;
    while s < 20_000_000 {
        let f = flicker_system(s);
        assert!(f.intensity >= 1_600_000_000 - 337_500_000);
        assert!(f.intensity <= 1_600_000_000 + 337_500_000);
        s += 333_000;
    }
}

#[test]
fn perturbation_actually_moves_the_flame() {
    // The flicker is not constant: two nearby times give different poses.
    let f1 = flicker_system(0);
    let f2 = flicker_system(500_000);
    assert_ne!(f1.flame_translation, f2.flame_translation);
    assert_ne!(f1.intensity, f2.intensity);
}
