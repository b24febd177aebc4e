use scenectl::effect::ColorFx;
use scenectl::effect::ExampleControls;
use scenectl::effect::MaterialFx;
use scenectl::effect::SceneObject;
use scenectl::effect::apply_effects;
use scenectl::params::ExampleState;

fn plain_material() -> MaterialFx {
    MaterialFx {
        base_color: ColorFx { red: 1_000_000, green: 1_000_000, blue: 1_000_000 },
        diffuse_transmission: 0,
        specular_transmission: 0,
        thickness: 0,
        ior: 1_000_000,
        perceptual_roughness: 0,
        reflectance: 0,
    }
}

fn object(diffuse: bool, specular: bool, color: bool) -> SceneObject {
    SceneObject {
        controls: ExampleControls {
            diffuse_transmission: diffuse,
            specular_transmission: specular,
            color,
        },
        material: plain_material(),
    }
}

#[test]
fn specular_flag_receives_the_specular_group() {
    let mut objects = vec![object(false, true, false)];
    let s = ExampleState::default();
    let c = ColorFx { red: 1, green: 2, blue: 3 };
    apply_effects(&mut objects, &s, false, &c);
    let m = objects[0].material;
    assert_eq!(m.specular_transmission, 900_000);
    assert_eq!(m.thickness, 1_800_000);
    assert_eq!(m.ior, 1_500_000);
    assert_eq!(m.perceptual_roughness, 120_000);
    assert_eq!(m.reflectance, 500_000);
    // The diffuse parameter and color are gated by other flags.
    assert_eq!(m.diffuse_transmission, 0);
    assert_eq!(m.base_color, plain_material().base_color);
}

#[test]
fn diffuse_flag_receives_only_the_diffuse_parameter() {
    let mut objects = vec![object(true, false, false)];
    let s = ExampleState::default();
    let c = ColorFx { red: 1, green: 2, blue: 3 };
    apply_effects(&mut objects, &s, false, &c);
    let m = objects[0].material;
    assert_eq!(m.diffuse_transmission, 500_000);
    assert_eq!(m.specular_transmission, 0);
    assert_eq!(m.thickness, 0);
}

#[test]
fn color_lands_only_on_the_randomize_edge() {
    let mut objects = vec![object(false, false, true)];
    let s = ExampleState::default();
    let c = ColorFx { red: 111_111, green: 222_222, blue: 333_333 };
    apply_effects(&mut objects, &s, false, &c);
    assert_eq!(objects[0].material.base_color, plain_material().base_color);
    apply_effects(&mut objects, &s, true, &c);
    assert_eq!(objects[0].material.base_color, c);
}

#[test]
fn unflagged_object_is_untouched() {
    let mut objects = vec![object(false, false, false)];
    let s = ExampleState::default();
    let c = ColorFx { red: 1, green: 2, blue: 3 };
    apply_effects(&mut objects, &s, true, &c);
    assert_eq!(objects[0], object(false, false, false));
}

#[test]
fn broadcast_reaches_every_object_per_its_flags() {
    let mut objects = vec![
        object(false, true, true),
        object(true, false, false),
        object(false, false, false),
    ];
    let s = ExampleState::default();
    let c = ColorFx { red: 9, green: 8, blue: 7 };
    apply_effects(&mut objects, &s, true, &c);
    assert_eq!(objects.len(), 3);
    assert_eq!(objects[0].material.specular_transmission, 900_000);
    assert_eq!(objects[0].material.base_color, c);
    assert_eq!(objects[0].material.diffuse_transmission, 0);
    assert_eq!(objects[1].material.diffuse_transmission, 500_000);
    assert_eq!(objects[1].material.base_color, plain_material().base_color);
    assert_eq!(objects[2], object(false, false, false));
}
