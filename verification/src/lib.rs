//! A verified model of a deferred shadow-mapping renderer core.
//!
//! The crate models the frame orchestration of a real-time 3D renderer:
//! the six cube-face shadow matrices of a point light, the camera state
//! with wrapped yaw and clamped pitch, the depth targets and their
//! recreation on resize, the fixed-function configuration of the four
//! render pipelines, and the ordered per-frame sequence of GPU passes.
//!
//! All quantities are exact: world coordinates and matrix entries are
//! integers or integer-scaled fixed-point values, and matrices carry a
//! common integer denominator. The platform layer that owns the GPU
//! device executes the command scripts this library produces and
//! performs the floating-point conversions at the boundary.

pub mod camera;
pub mod instance;
pub mod light;
pub mod math;
pub mod matrix;
pub mod model;
pub mod pass;
pub mod resources;
pub mod shadow;
pub mod state;
pub mod texture;
