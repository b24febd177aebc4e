//! Camera tuning and rendering feature toggles, driven by key edges.
//!
//! The transmission quality is an ordered four-level setting selected
//! directly by one key per level; the step count moves one notch per edge
//! inside a fixed inclusive range; three independent feature toggles flip
//! on their edges.
//!
//! Bindings: `J`/`K`/`L`/`;` select the quality level, `O`/`P` decrease
//! and increase the step count, and `H`, `D`, `T` toggle HDR with bloom,
//! the depth prepass and temporal anti-aliasing.

use vstd::prelude::*;

verus! {

/// Largest step count the tuning accepts.
pub const MAX_STEPS: u8 = 4;

/// The ordered screen-space transmission quality levels.
#[derive(Clone, Copy, PartialEq, Eq, Structural, Debug)]
pub enum TransmissionQuality {
    Low,
    Medium,
    High,
    Ultra,
}

/// The camera's discrete tuning state.
#[derive(Clone, Copy, PartialEq, Eq, Structural, Debug)]
pub struct CameraTuning {
    pub quality: TransmissionQuality,
    pub steps: u8,
}

/// The key edges of one tuning tick.
#[derive(Clone, Copy, PartialEq, Eq, Structural, Debug)]
pub struct TuningKeys {
    pub select_low: bool,
    pub select_medium: bool,
    pub select_high: bool,
    pub select_ultra: bool,
    pub steps_down: bool,
    pub steps_up: bool,
}

/// The three rendering feature toggles.
#[derive(Clone, Copy, PartialEq, Eq, Structural, Debug)]
pub struct FeatureToggles {
    pub hdr: bool,
    pub depth_prepass: bool,
    pub taa: bool,
}

/// The key edges of one toggle tick.
#[derive(Clone, Copy, PartialEq, Eq, Structural, Debug)]
pub struct ToggleKeys {
    pub hdr: bool,
    pub depth_prepass: bool,
    pub taa: bool,
}

impl CameraTuning {
    /// The step count sits inside its inclusive range.
    pub open spec fn wf(self) -> bool {
        self.steps <= MAX_STEPS
    }
}

/// The tuning after one tick: direct quality selection, first key wins,
/// then one saturated step move, the decrement edge first.
pub open spec fn spec_tuning_tick(t: CameraTuning, k: TuningKeys) -> CameraTuning {
    let quality = if k.select_low {
        TransmissionQuality::Low
    } else if k.select_medium {
        TransmissionQuality::Medium
    } else if k.select_high {
        TransmissionQuality::High
    } else if k.select_ultra {
        TransmissionQuality::Ultra
    } else {
        t.quality
    };
    let steps = if k.steps_down {
        if t.steps > 0 {
            (t.steps - 1) as u8
        } else {
            0u8
        }
    } else if k.steps_up {
        if t.steps < MAX_STEPS {
            (t.steps + 1) as u8
        } else {
            MAX_STEPS
        }
    } else {
        t.steps
    };
    CameraTuning { quality, steps }
}

/// One tuning tick.
pub fn update_tuning(t: &mut CameraTuning, keys: &TuningKeys)
    requires
        old(t).wf(),
    ensures
        *final(t) == spec_tuning_tick(*old(t), *keys),
        final(t).wf(),
{
    if keys.select_low {
        t.quality = TransmissionQuality::Low;
    } else if keys.select_medium {
        t.quality = TransmissionQuality::Medium;
    } else if keys.select_high {
        t.quality = TransmissionQuality::High;
    } else if keys.select_ultra {
        t.quality = TransmissionQuality::Ultra;
    }
    if keys.steps_down {
        if t.steps > 0 {
            t.steps = t.steps - 1;
        }
    } else if keys.steps_up {
        if t.steps < MAX_STEPS {
            t.steps = t.steps + 1;
        }
    }
}

/// The toggles after one tick: each flips exactly on its own edge.
pub open spec fn spec_toggle_tick(f: FeatureToggles, k: ToggleKeys) -> FeatureToggles {
    FeatureToggles {
        hdr: if k.hdr {
            !f.hdr
        } else {
            f.hdr
        },
        depth_prepass: if k.depth_prepass {
            !f.depth_prepass
        } else {
            f.depth_prepass
        },
        taa: if k.taa {
            !f.taa
        } else {
            f.taa
        },
    }
}

/// One toggle tick.
pub fn update_toggles(f: &mut FeatureToggles, keys: &ToggleKeys)
    ensures
        *final(f) == spec_toggle_tick(*old(f), *keys),
{
    if keys.hdr {
        f.hdr = !f.hdr;
    }
    if keys.depth_prepass {
        f.depth_prepass = !f.depth_prepass;
    }
    if keys.taa {
        f.taa = !f.taa;
    }
}

} // verus!
