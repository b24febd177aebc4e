//! The parameter reducer: held keys become bounded material parameters.
//!
//! Each material parameter has an increment key and a decrement key.  While
//! one is held, the parameter moves at one unit per second — the step of a
//! tick is the frame delta `dt` itself — and is saturated into its
//! documented closed interval after every update.  When both keys of a pair
//! are held the increment wins: the increment key is checked first, and the
//! first check wins.

use crate::fixed::fx_clamp;
use crate::fixed::spec_clamp;
use crate::fixed::FX_ONE;
use vstd::prelude::*;

verus! {

/// Largest frame delta a tick accepts, in micro-seconds (3 s).
pub const DT_MAX: i64 = 3_000_000;

/// Upper bound of the thickness parameter, in micro-units.
pub const THICKNESS_MAX: i64 = 5_000_000;

/// Lower bound of the index of refraction, in micro-units.
pub const IOR_MIN: i64 = 1_000_000;

/// Upper bound of the index of refraction, in micro-units.
pub const IOR_MAX: i64 = 3_000_000;

/// The session's accumulated control state: the six bounded material
/// parameters, in micro-units, and whether the orbit camera still follows
/// its automatic rotation.
#[derive(Clone, Copy, PartialEq, Eq, Structural, Debug)]
pub struct ExampleState {
    pub diffuse_transmission: i64,
    pub specular_transmission: i64,
    pub thickness: i64,
    pub ior: i64,
    pub perceptual_roughness: i64,
    pub reflectance: i64,
    pub auto_camera: bool,
}

/// The held keys of one reducer tick, one increment/decrement pair per
/// parameter, and the edge-triggered color-randomize request.
///
/// Bindings: `1`/`2` diffuse transmission, `Q`/`W` specular transmission,
/// `A`/`S` thickness, `Z`/`X` index of refraction, `E`/`R` perceptual
/// roughness, `U`/`I` reflectance (decrement listed first), and `C` for the
/// one-shot color randomize.
#[derive(Clone, Copy, PartialEq, Eq, Structural, Debug)]
pub struct ParamKeys {
    pub diffuse_up: bool,
    pub diffuse_down: bool,
    pub specular_up: bool,
    pub specular_down: bool,
    pub thickness_up: bool,
    pub thickness_down: bool,
    pub ior_up: bool,
    pub ior_down: bool,
    pub roughness_up: bool,
    pub roughness_down: bool,
    pub reflectance_up: bool,
    pub reflectance_down: bool,
    pub randomize_color: bool,
}

impl ParamKeys {
    /// A tick on which no parameter key is held and nothing is requested.
    pub fn released() -> (k: ParamKeys)
        ensures
            k == (ParamKeys {
                diffuse_up: false,
                diffuse_down: false,
                specular_up: false,
                specular_down: false,
                thickness_up: false,
                thickness_down: false,
                ior_up: false,
                ior_down: false,
                roughness_up: false,
                roughness_down: false,
                reflectance_up: false,
                reflectance_down: false,
                randomize_color: false,
            }),
    {
        ParamKeys {
            diffuse_up: false,
            diffuse_down: false,
            specular_up: false,
            specular_down: false,
            thickness_up: false,
            thickness_down: false,
            ior_up: false,
            ior_down: false,
            roughness_up: false,
            roughness_down: false,
            reflectance_up: false,
            reflectance_down: false,
            randomize_color: false,
        }
    }
}

/// One parameter's move for a tick: `dt` up, `dt` down or nothing, then
/// saturation into `[lo, hi]`; the increment key wins a tie.
pub open spec fn spec_adjust(v: int, up: bool, down: bool, dt: int, lo: int, hi: int) -> int {
    let step = if up {
        dt
    } else if down {
        -dt
    } else {
        0
    };
    spec_clamp(v + step, lo, hi)
}

impl ExampleState {
    /// Every parameter sits inside its documented closed interval.
    pub open spec fn wf(self) -> bool {
        &&& 0 <= self.diffuse_transmission <= FX_ONE
        &&& 0 <= self.specular_transmission <= FX_ONE
        &&& 0 <= self.thickness <= THICKNESS_MAX
        &&& IOR_MIN <= self.ior <= IOR_MAX
        &&& 0 <= self.perceptual_roughness <= FX_ONE
        &&& 0 <= self.reflectance <= FX_ONE
    }

    /// The documented session-start values.
    pub open spec fn spec_default() -> ExampleState {
        ExampleState {
            diffuse_transmission: 500_000,
            specular_transmission: 900_000,
            thickness: 1_800_000,
            ior: 1_500_000,
            perceptual_roughness: 120_000,
            reflectance: 500_000,
            auto_camera: true,
        }
    }
}

impl Default for ExampleState {
    /// The state a session starts from.
    fn default() -> (s: ExampleState)
        ensures
            s == ExampleState::spec_default(),
            s.wf(),
    {
        ExampleState {
            diffuse_transmission: 500_000,
            specular_transmission: 900_000,
            thickness: 1_800_000,
            ior: 1_500_000,
            perceptual_roughness: 120_000,
            reflectance: 500_000,
            auto_camera: true,
        }
    }
}

/// The whole reducer tick as one function of the previous state, the held
/// keys and the frame delta.
pub open spec fn spec_params_tick(s: ExampleState, k: ParamKeys, dt: int) -> ExampleState {
    ExampleState {
        diffuse_transmission: spec_adjust(
            s.diffuse_transmission as int,
            k.diffuse_up,
            k.diffuse_down,
            dt,
            0,
            FX_ONE as int,
        ) as i64,
        specular_transmission: spec_adjust(
            s.specular_transmission as int,
            k.specular_up,
            k.specular_down,
            dt,
            0,
            FX_ONE as int,
        ) as i64,
        thickness: spec_adjust(
            s.thickness as int,
            k.thickness_up,
            k.thickness_down,
            dt,
            0,
            THICKNESS_MAX as int,
        ) as i64,
        ior: spec_adjust(
            s.ior as int,
            k.ior_up,
            k.ior_down,
            dt,
            IOR_MIN as int,
            IOR_MAX as int,
        ) as i64,
        perceptual_roughness: spec_adjust(
            s.perceptual_roughness as int,
            k.roughness_up,
            k.roughness_down,
            dt,
            0,
            FX_ONE as int,
        ) as i64,
        reflectance: spec_adjust(
            s.reflectance as int,
            k.reflectance_up,
            k.reflectance_down,
            dt,
            0,
            FX_ONE as int,
        ) as i64,
        auto_camera: s.auto_camera,
    }
}

/// One saturated move of a single parameter.
fn adjust(v: i64, up: bool, down: bool, dt: i64, lo: i64, hi: i64) -> (r: i64)
    requires
        0 <= dt <= DT_MAX,
        lo <= v <= hi,
        -1_000_000_000 <= lo <= hi <= 1_000_000_000,
    ensures
        r as int == spec_adjust(v as int, up, down, dt as int, lo as int, hi as int),
        lo <= r <= hi,
{
    let step: i64 = if up {
        dt
    } else if down {
        -dt
    } else {
        0
    };
    fx_clamp(v + step, lo, hi)
}

/// One reducer tick: move every parameter by the held keys and saturate it.
///
/// The saturation on every update — not only at session start — is what
/// keeps each parameter inside its interval under arbitrarily long key
/// holds.
#[verifier::rlimit(60)]
pub fn update_params(state: &mut ExampleState, keys: &ParamKeys, dt: i64)
    requires
        0 <= dt <= DT_MAX,
        old(state).wf(),
    ensures
        *final(state) == spec_params_tick(*old(state), *keys, dt as int),
        final(state).wf(),
        final(state).auto_camera == old(state).auto_camera,
{
    state.diffuse_transmission = adjust(
        state.diffuse_transmission,
        keys.diffuse_up,
        keys.diffuse_down,
        dt,
        0,
        FX_ONE,
    );
    state.specular_transmission = adjust(
        state.specular_transmission,
        keys.specular_up,
        keys.specular_down,
        dt,
        0,
        FX_ONE,
    );
    state.thickness = adjust(
        state.thickness,
        keys.thickness_up,
        keys.thickness_down,
        dt,
        0,
        THICKNESS_MAX,
    );
    state.ior = adjust(state.ior, keys.ior_up, keys.ior_down, dt, IOR_MIN, IOR_MAX);
    state.perceptual_roughness = adjust(
        state.perceptual_roughness,
        keys.roughness_up,
        keys.roughness_down,
        dt,
        0,
        FX_ONE,
    );
    state.reflectance = adjust(
        state.reflectance,
        keys.reflectance_up,
        keys.reflectance_down,
        dt,
        0,
        FX_ONE,
    );
}

/// The reducer run over a whole sequence of ticks.
pub open spec fn spec_params_run(s: ExampleState, ticks: Seq<(ParamKeys, int)>) -> ExampleState
    decreases ticks.len(),
{
    if ticks.len() == 0 {
        s
    } else {
        spec_params_run(spec_params_tick(s, ticks[0].0, ticks[0].1), ticks.skip(1))
    }
}

/// Boundary saturation: from any well-formed state, any number of ticks of
/// any nonnegative frame deltas leaves every material parameter inside its
/// documented closed interval.
pub proof fn lemma_params_bounded(s: ExampleState, ticks: Seq<(ParamKeys, int)>)
    requires
        s.wf(),
        forall|i: int| 0 <= i < ticks.len() ==> ticks[i].1 >= 0,
    ensures
        spec_params_run(s, ticks).wf(),
    decreases ticks.len(),
{
    if ticks.len() > 0 {
        let s1 = spec_params_tick(s, ticks[0].0, ticks[0].1);
        assert(s1.wf());
        assert(forall|i: int| 0 <= i < ticks.skip(1).len() ==> ticks.skip(1)[i].1 >= 0);
        lemma_params_bounded(s1, ticks.skip(1));
    }
}

} // verus!
