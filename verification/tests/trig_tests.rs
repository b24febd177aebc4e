use scenectl::trig::cos_fx;
use scenectl::trig::exp_fx;
use scenectl::trig::exp_neg_fx;
use scenectl::trig::sin_fx;
use scenectl::trig::FX_PI;
use scenectl::trig::FX_HALF_PI;

#[test]
fn cosine_of_zero_is_exactly_one() {
    assert_eq!(cos_fx(0), 1_000_000);
}

#[test]
fn cosine_hits_its_landmarks_closely() {
    // cos(pi) = -1 and cos(pi/2) = 0, within the series' tolerance.
    assert!((cos_fx(FX_PI) + 1_000_000).abs() < 2_000);
    assert!(cos_fx(FX_HALF_PI).abs() < 2_000);
    // One full turn wraps back to one.
    assert!((cos_fx(6_283_185) - 1_000_000).abs() < 2_000);
}

#[test]
fn sine_hits_its_landmarks_closely() {
    assert!(sin_fx(0).abs() < 2_000);
    assert!((sin_fx(FX_HALF_PI) - 1_000_000).abs() < 2_000);
    assert!((sin_fx(-FX_HALF_PI) + 1_000_000).abs() < 2_000);
}

#[test]
fn exponential_of_zero_is_exactly_one() {
    assert_eq!(exp_fx(0), 1_000_000);
    assert_eq!(exp_neg_fx(0), 1_000_000);
}

#[test]
fn exponential_of_a_tenth_matches_the_real_value() {
    // e^0.1 is about 1.10517.
    let e = exp_fx(100_000);
    assert!(e > 1_100_000 && e < 1_110_000);
    // e^-0.1 is about 0.90484.
    let en = exp_neg_fx(100_000);
    assert!(en > 900_000 && en < 910_000);
}

#[test]
fn exponential_is_monotone_on_sampled_points() {
    let mut prev = exp_fx(0);
    let mut x: i64 = 100_000;
    while x <= 3_000_000 {
        let cur = exp_fx(x);
        assert!(cur >= prev);
        prev = cur;
        x += 100_000;
    }
}
