//! Shader-stage configuration value objects.

pub mod colorspace;
pub mod sampling;
