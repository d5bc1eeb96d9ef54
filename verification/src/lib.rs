//! Verified core of a Vulkan ray-tracing bootstrap layer.
//!
//! The library covers the decision logic of GPU resource management:
//! memory-type selection, buffer and image allocation planning, queue-family
//! selection and deduplication, logical-device feature negotiation, swapchain
//! format/present-mode/extent negotiation, image layout-transition command
//! planning, and the row-pitch-aware readback path ending in PNG encoding.
//! The raw API calls themselves (which are inherently unsafe FFI) live in the
//! surrounding application, which feeds this library plain values and carries
//! out the plans it computes.

pub mod buffer;
pub mod image_utils;
pub mod vulkan_base;
pub mod windowed;
