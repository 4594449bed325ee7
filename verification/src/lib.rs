//! Buffer-usage bookkeeping, upload planning, framebuffer layout and
//! collision records for a small Vulkan renderer with a rigid-body simulation.

pub mod collision;
pub mod pipeline;
pub mod upload;
pub mod usage;
pub mod vulkan;
