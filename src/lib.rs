//! Procedural gradient wallpapers: random colour anchors and the pixel layout
//! of the rendered RGB buffer.

pub mod random;
pub mod raster;
pub mod sampler;
