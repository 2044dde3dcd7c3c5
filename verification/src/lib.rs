//! A verified model of a small 3D scene: a ground plane, a directional
//! light, a player cube and a camera that follows it.
//!
//! Positions and colours are held as fixed-point integers (micro-units and
//! milli-units), so the frame rules — key state to direction, direction to
//! displacement, camera to player plus a constant offset — carry exact
//! contracts. The host engine's own work (spawning, rendering, input
//! polling) stays outside the library.

pub mod motion;
pub mod scene;
pub mod vec3;
pub mod world;

pub use vec3::Vec3Fx;
