//! A deterministic kernel for a one-dimensional throttle game: a per-tick
//! vehicle state transition and a camera that maps world coordinates onto a
//! screen.

pub mod arith;
pub mod camera;
pub mod state;

pub use camera::Camera;
pub use state::{update, State};
