//! The procedural flicker: deterministic flame and light motion from a
//! multi-harmonic sum of cosines.
//!
//! Everything is a pure function of the elapsed session time; nothing is
//! accumulated, so the animation cannot drift.  Three perturbation scalars
//! `a`, `b`, `c` each mix two cosine harmonics; the light intensity and the
//! flame and light positions are affine in them.
//!
//! The flame mesh's orientation is defined by its look target: the flame
//! looks from its position toward `flame_look_target` with the world X
//! axis — deliberately a horizontal axis, for the tilted billboard look —
//! as the up reference, then turns a quarter turn about its local forward
//! axis.  Building the quaternion from that data is the rendering side's
//! usual look-at construction; the target itself pins it.

use crate::fixed::fx_mul;
use crate::fixed::lemma_fx_mul_bound;
use crate::fixed::spec_fx_mul;
use crate::fixed::FX_ONE;
use crate::geom::Vec3Fx;
use crate::trig::cos_fx;
use crate::trig::spec_cos_fx;
use vstd::prelude::*;

verus! {

/// Largest elapsed time the generator accepts, in micro-seconds.
pub const ELAPSED_MAX: i64 = 100_000_000_000_000;

/// Base light intensity, in micro-units.
pub const BASE_INTENSITY: i64 = 1_600_000_000;

/// The flicker outputs of one tick: the light intensity and the poses'
/// defining points, all in micro-units.
#[derive(Clone, Copy, PartialEq, Eq, Structural, Debug)]
pub struct FlickerState {
    pub intensity: i64,
    pub flame_translation: Vec3Fx,
    pub flame_look_target: Vec3Fx,
    pub light_translation: Vec3Fx,
}

/// The first perturbation scalar: `0.0125 cos(6s) + 0.025 cos(4s)`.
pub open spec fn spec_flicker_a(s: int) -> int {
    spec_fx_mul(spec_cos_fx(6 * s), 12_500) + spec_fx_mul(spec_cos_fx(4 * s), 25_000)
}

/// The second perturbation scalar: `0.0125 cos(5s) + 0.025 cos(3s)`.
pub open spec fn spec_flicker_b(s: int) -> int {
    spec_fx_mul(spec_cos_fx(5 * s), 12_500) + spec_fx_mul(spec_cos_fx(3 * s), 25_000)
}

/// The third perturbation scalar: `0.0125 cos(7s) + 0.025 cos(2s)`.
pub open spec fn spec_flicker_c(s: int) -> int {
    spec_fx_mul(spec_cos_fx(7 * s), 12_500) + spec_fx_mul(spec_cos_fx(2 * s), 25_000)
}

/// The whole flicker tick as a function of the elapsed time alone.
///
/// Intensity is `1600 + 3000 (a + b + c)`; the flame sits at
/// `(-1 - c, 1.23, -a)` looking toward `(-1 - c, 1.7 - b, -a)`; the light
/// sits at `(-1 - c, 1.7, -a)`, unperturbed vertically.
pub open spec fn spec_flicker(s: int) -> FlickerState {
    let a = spec_flicker_a(s);
    let b = spec_flicker_b(s);
    let c = spec_flicker_c(s);
    FlickerState {
        intensity: (BASE_INTENSITY + 3000 * (a + b + c)) as i64,
        flame_translation: Vec3Fx {
            x: (-FX_ONE - c) as i64,
            y: 1_230_000,
            z: (0 - a) as i64,
        },
        flame_look_target: Vec3Fx {
            x: (-FX_ONE - c) as i64,
            y: (1_700_000 - b) as i64,
            z: (0 - a) as i64,
        },
        light_translation: Vec3Fx { x: (-FX_ONE - c) as i64, y: 1_700_000, z: (0 - a) as i64 },
    }
}

/// One harmonic pair: `0.0125 cos(h1 s) + 0.025 cos(h2 s)`.
fn harmonic_pair(s: i64, h1: i64, h2: i64) -> (r: i64)
    requires
        0 <= s <= ELAPSED_MAX,
        1 <= h1 <= 7,
        1 <= h2 <= 7,
    ensures
        r as int == spec_fx_mul(spec_cos_fx(h1 * s), 12_500) + spec_fx_mul(
            spec_cos_fx(h2 * s),
            25_000,
        ),
        -37_500 <= r <= 37_500,
{
    proof {
        assert(0 <= (h1 as int) * (s as int) <= 700_000_000_000_000int && 0 <= (h2 as int) * (s
            as int) <= 700_000_000_000_000int) by (nonlinear_arith)
            requires
                0 <= s <= ELAPSED_MAX,
                1 <= h1 <= 7,
                1 <= h2 <= 7,
        ;
    }
    let c1 = cos_fx(h1 * s);
    let c2 = cos_fx(h2 * s);
    proof {
        lemma_fx_mul_bound(c1 as int, 12_500, FX_ONE as int, 12_500);
        lemma_fx_mul_bound(c2 as int, 25_000, FX_ONE as int, 25_000);
    }
    fx_mul(c1, 12_500) + fx_mul(c2, 25_000)
}

/// One flicker tick: compute the light intensity and the flame and light
/// poses from the elapsed time.  Recomputed from scratch every tick, it is
/// a pure function: equal elapsed times give identical outputs.
pub fn flicker_system(elapsed: i64) -> (f: FlickerState)
    requires
        0 <= elapsed <= ELAPSED_MAX,
    ensures
        f == spec_flicker(elapsed as int),
{
    let a = harmonic_pair(elapsed, 6, 4);
    let b = harmonic_pair(elapsed, 5, 3);
    let c = harmonic_pair(elapsed, 7, 2);
    FlickerState {
        intensity: BASE_INTENSITY + 3000 * (a + b + c),
        flame_translation: Vec3Fx { x: -FX_ONE - c, y: 1_230_000, z: 0 - a },
        flame_look_target: Vec3Fx { x: -FX_ONE - c, y: 1_700_000 - b, z: 0 - a },
        light_translation: Vec3Fx { x: -FX_ONE - c, y: 1_700_000, z: 0 - a },
    }
}

/// The flicker generator is pure: its contract pins one output per elapsed
/// time, so two computations for the same time agree exactly.
pub proof fn lemma_flicker_pure(s: int, f1: FlickerState, f2: FlickerState)
    requires
        f1 == spec_flicker(s),
        f2 == spec_flicker(s),
    ensures
        f1 == f2,
{
}

} // verus!
