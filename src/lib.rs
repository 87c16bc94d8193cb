//! Verified core of a low-resolution ("pixelated") 3D renderer: render-target
//! sizing, cursor capture, a fixed-point free-fly camera controller, the
//! per-frame command plan, and the asset rules the renderer depends on.

pub mod targets;
pub mod cursor;
pub mod fixed;
pub mod camera;
pub mod frame;
pub mod assets;
pub mod engine;
