//! Verified core of an interactive real-time 3-D scene controller.
//!
//! The library models, over fixed-point integers, the per-frame control
//! loops of the scene: a reducer that turns held keys into bounded material
//! parameters, an orbiting camera and a free-look camera, a physics-coupled
//! ball controller, a procedural flicker animation, and the applier that
//! broadcasts parameter edits to the scene's objects.  Every quantity is a
//! scalar in micro-units (one unit is `fixed::FX_ONE`), so the whole core is
//! expressible in integer arithmetic and each update carries a contract.
//!
//! The rendering engine, asset loading and window handling around this core
//! are collaborators: they supply elapsed time, frame deltas, key states and
//! mouse deltas as plain values, and receive poses, velocity commands and
//! material fields back.

pub mod ball;
pub mod effect;
pub mod fixed;
pub mod flicker;
pub mod geom;
pub mod look;
pub mod orbit;
pub mod params;
pub mod trig;
pub mod tuning;
