//! Verified building blocks for a thin convenience layer over Vulkan:
//! buffer configuration and memory-type selection, shader-stage assembly,
//! vertex input layouts and the per-frame submission protocol.
pub mod memory;
pub mod handles;
pub mod buffer;
pub mod shader;
pub mod vertices;
pub mod frame;
pub mod context;
