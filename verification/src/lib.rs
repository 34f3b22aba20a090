//! A verified core for a hierarchical 3D scene renderer: fixed-point scalar
//! arithmetic, transform matrices with rotation and scaling about a pivot,
//! a scene graph with depth-first traversal, a camera/input controller with
//! bounded orientation and velocity state, and a flight-style heading
//! animation model.
//!
//! All quantities are fixed-point numbers: an `i64` holding the real value
//! scaled by `FX_ONE` (2^16). Window/GL plumbing lives outside this crate and
//! exchanges plain values with it.

pub mod controls;
pub mod fixed;
pub mod input_state;
pub mod mat;
pub mod meshes;
pub mod scene_graph;
pub mod toolbox;
pub mod trig;
