//! A software rasterizer: a scene of triangle meshes is transformed into
//! camera space, clipped against the view frustum, perspective projected,
//! and rasterized with depth testing, Lambert shading and a wireframe
//! overlay into a flat RGBA bitmap.
//!
//! All scalar arithmetic is saturating fixed-point (see [`fixed`]), so every
//! operation in the pipeline is total and exactly specified.

pub mod assets;
pub mod fixed;
pub mod buffer;
pub mod clip;
pub mod math;
pub mod raster;
pub mod render;
pub mod scene;
pub mod trig;
