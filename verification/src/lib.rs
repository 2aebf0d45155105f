//! Integer core of a progressive sphere path tracer.
//!
//! The crate holds the parts of the tracer that decide rather than shade:
//! the hash that drives every random choice, the pixel grid, the selection
//! of the nearest hit, the walk of a path through its bounces, the running
//! accumulation of frames, the layout of the default scene and the frame
//! timers. Radiance itself is handed in and out by the caller.

pub mod camera;
pub mod globals;
pub mod image_util;
pub mod math;
pub mod render;
pub mod render_time;
pub mod renderer;
pub mod scene;
pub mod sphere;
pub mod timer;
