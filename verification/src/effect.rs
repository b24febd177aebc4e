//! The effect applier: broadcast of the reduced material parameters to
//! every controllable object, gated by per-object capability flags.
//!
//! An object flagged for specular transmission receives the specular
//! parameter group; one flagged for diffuse transmission receives the
//! diffuse parameter; one flagged for color receives the freshly
//! randomized color, and only on the tick the randomize edge fired.  The
//! flags are fixed at scene construction and only read here.

use crate::params::ExampleState;
use vstd::prelude::*;

verus! {

/// Which of the broadcast parameters an object accepts.  Static after
/// scene construction.
#[derive(Clone, Copy, PartialEq, Eq, Structural, Debug)]
pub struct ExampleControls {
    pub diffuse_transmission: bool,
    pub specular_transmission: bool,
    pub color: bool,
}

/// An RGB color in micro-units per channel.
#[derive(Clone, Copy, PartialEq, Eq, Structural, Debug)]
pub struct ColorFx {
    pub red: i64,
    pub green: i64,
    pub blue: i64,
}

/// The material fields the applier writes, in micro-units.
#[derive(Clone, Copy, PartialEq, Eq, Structural, Debug)]
pub struct MaterialFx {
    pub base_color: ColorFx,
    pub diffuse_transmission: i64,
    pub specular_transmission: i64,
    pub thickness: i64,
    pub ior: i64,
    pub perceptual_roughness: i64,
    pub reflectance: i64,
}

/// One renderable object the applier may touch: its capability flags and
/// its material.
#[derive(Clone, Copy, PartialEq, Eq, Structural, Debug)]
pub struct SceneObject {
    pub controls: ExampleControls,
    pub material: MaterialFx,
}

/// One object's material after a broadcast: each parameter group lands
/// only where the matching flag is set, and the color only when the
/// randomize edge fired this tick.
pub open spec fn spec_apply_one(
    o: SceneObject,
    s: ExampleState,
    randomize: bool,
    color: ColorFx,
) -> SceneObject {
    let m0 = o.material;
    let m1 = if o.controls.specular_transmission {
        MaterialFx {
            specular_transmission: s.specular_transmission,
            thickness: s.thickness,
            ior: s.ior,
            perceptual_roughness: s.perceptual_roughness,
            reflectance: s.reflectance,
            ..m0
        }
    } else {
        m0
    };
    let m2 = if o.controls.diffuse_transmission {
        MaterialFx { diffuse_transmission: s.diffuse_transmission, ..m1 }
    } else {
        m1
    };
    let m3 = if randomize && o.controls.color {
        MaterialFx { base_color: color, ..m2 }
    } else {
        m2
    };
    SceneObject { controls: o.controls, material: m3 }
}

/// Apply one broadcast to one object.
pub fn apply_one(o: &SceneObject, s: &ExampleState, randomize: bool, color: &ColorFx) -> (r:
    SceneObject)
    ensures
        r == spec_apply_one(*o, *s, randomize, *color),
{
    let mut m = o.material;
    if o.controls.specular_transmission {
        m.specular_transmission = s.specular_transmission;
        m.thickness = s.thickness;
        m.ior = s.ior;
        m.perceptual_roughness = s.perceptual_roughness;
        m.reflectance = s.reflectance;
    }
    if o.controls.diffuse_transmission {
        m.diffuse_transmission = s.diffuse_transmission;
    }
    if randomize && o.controls.color {
        m.base_color = *color;
    }
    SceneObject { controls: o.controls, material: m }
}

/// One applier tick: broadcast the current parameters to every object,
/// each gated by its own flags.  Nothing but the qualifying material
/// fields changes, and no object is added or removed.
pub fn apply_effects(
    objects: &mut Vec<SceneObject>,
    s: &ExampleState,
    randomize: bool,
    color: &ColorFx,
)
    ensures
        final(objects)@.len() == old(objects)@.len(),
        forall|i: int|
            0 <= i < old(objects)@.len() ==> final(objects)@[i] == spec_apply_one(
                old(objects)@[i],
                *s,
                randomize,
                *color,
            ),
{
    let n = objects.len();
    let mut i: usize = 0;
    while i < n
        invariant
            0 <= i <= n,
            n == objects@.len(),
            objects@.len() == old(objects)@.len(),
            forall|j: int|
                0 <= j < i ==> objects@[j] == spec_apply_one(
                    old(objects)@[j],
                    *s,
                    randomize,
                    *color,
                ),
            forall|j: int| i <= j < n ==> objects@[j] == old(objects)@[j],
        decreases n - i,
    {
        let updated = apply_one(&objects[i], s, randomize, color);
        objects.set(i, updated);
        i = i + 1;
    }
}

} // verus!
