//! Frame pipeline and swapchain lifecycle management for a clear-colour renderer.
//!
//! The library holds the decisions of the renderer: which adapter, queue family,
//! present mode, format, extent and image count to use, how the per-image and
//! per-slot frame resources are looked up and recycled, and in which order the
//! work of a frame and the teardown of its resources must happen. The device
//! calls themselves are made by the caller, which hands the results back.

pub mod adapter;
pub mod error;
pub mod format;
pub mod framebuffer;
pub mod input;
pub mod orchestrator;
pub mod render_pass;
pub mod swapchain;
