//! A verified model of a GPU-accelerated image compositing and
//! color-managed presentation pipeline: a process-scoped context, a
//! graphics instance, a logical device, device-owned resources
//! (textures, buffers), a presentation swapchain with a per-frame
//! protocol, a renderer consuming images and render targets, and the
//! configuration value objects (filters, color spaces, dithering,
//! tone mapping) that drive it.
//!
//! The native device layer is modelled explicitly: every object holds
//! a plain handle (0 meaning destroyed), parents count their live
//! children, and the strict reverse-creation destruction order is
//! enforced by contracts rather than by convention.

pub mod bits;
pub mod colorspace;
pub mod common;
pub mod context;
pub mod filter;
pub mod gpu;
pub mod renderer;
pub mod shaders;
pub mod swapchain;
pub mod upload;
pub mod vulkan;
