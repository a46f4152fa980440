//! A minimal real-time 3D scene renderer core.
//!
//! The crate holds the verified heart of an orbital-camera scene renderer:
//! fixed-point arithmetic and trigonometry, camera state with clamped
//! spherical coordinates, per-entity animation (rotation and color pulsing),
//! procedural scatter placement from a seeded random stream, and the
//! per-frame draw-call plan. Window, OpenGL, and asset-decoding plumbing
//! live outside the library and consume plain values from it.
use vstd::prelude::*;

pub mod camera;
pub mod fx;
pub mod input;
pub mod mat;
pub mod mesh;
pub mod rng;
pub mod scatter;
pub mod scene;
pub mod scene_object;
pub mod textures;
pub mod trig;

verus! {

/// A scene cannot be built, nor a projection derived, from these inputs;
/// detected before any frame is drawn.
#[derive(Clone, Copy, Debug, PartialEq, Eq, Structural)]
pub enum ConfigurationError {
    /// Camera radius bounds empty or not positive.
    CameraBounds,
    /// Polar clamp band empty: epsilon not positive or at least half pi.
    CameraEpsilon,
    /// Scatter bounding rectangle empty.
    ScatterRegion,
    /// Scatter scale range empty or not positive.
    ScatterScale,
    /// Non-positive aspect ratio handed to the projection.
    Aspect,
}

} // verus!
