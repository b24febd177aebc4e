use scenectl::tuning::CameraTuning;
use scenectl::tuning::FeatureToggles;
use scenectl::tuning::MAX_STEPS;
use scenectl::tuning::ToggleKeys;
use scenectl::tuning::TransmissionQuality;
use scenectl::tuning::TuningKeys;
use scenectl::tuning::update_toggles;
use scenectl::tuning::update_tuning;

fn no_tuning_keys() -> TuningKeys {
    TuningKeys {
        select_low: false,
        select_medium: false,
        select_high: false,
        select_ultra: false,
        steps_down: false,
        steps_up: false,
    }
}

#[test]
fn quality_keys_select_directly() {
    let mut t = CameraTuning { quality: TransmissionQuality::Medium, steps: 1 };
    update_tuning(&mut t, &TuningKeys { select_ultra: true, ..no_tuning_keys() });
    assert_eq!(t.quality, TransmissionQuality::Ultra);
    update_tuning(&mut t, &TuningKeys { select_low: true, ..no_tuning_keys() });
    assert_eq!(t.quality, TransmissionQuality::Low);
    // The first listed key wins when several fire at once.
    update_tuning(
        &mut t,
        &TuningKeys { select_medium: true, select_high: true, ..no_tuning_keys() },
    );
    assert_eq!(t.quality, TransmissionQuality::Medium);
}

#[test]
fn steps_saturate_at_both_ends() {
    let mut t = CameraTuning { quality: TransmissionQuality::High, steps: 0 };
    update_tuning(&mut t, &TuningKeys { steps_down: true, ..no_tuning_keys() });
    assert_eq!(t.steps, 0);
    for _ in 0..10 {
        update_tuning(&mut t, &TuningKeys { steps_up: true, ..no_tuning_keys() });
    }
    assert_eq!(t.steps, MAX_STEPS);
    update_tuning(&mut t, &TuningKeys { steps_down: true, ..no_tuning_keys() });
    assert_eq!(t.steps, MAX_STEPS - 1);
}

#[test]
fn toggles_flip_only_on_their_own_edges() {
    let mut f = FeatureToggles { hdr: true, depth_prepass: false, taa: true };
    update_toggles(&mut f, &ToggleKeys { hdr: true, depth_prepass: false, taa: false });
    assert_eq!(f, FeatureToggles { hdr: false, depth_prepass: false, taa: true });
    update_toggles(&mut f, &ToggleKeys { hdr: false, depth_prepass: true, taa: true });
    assert_eq!(f, FeatureToggles { hdr: false, depth_prepass: true, taa: false });
    update_toggles(&mut f, &ToggleKeys { hdr: false, depth_prepass: false, taa: false });
    assert_eq!(f, FeatureToggles { hdr: false, depth_prepass: true, taa: false });
}
