//! Verified decision logic for bringing up a Vulkan-style graphics stack:
//! capability probing, instance planning, physical-device selection,
//! queue-family search, and swapchain negotiation.
//!
//! The library works on plain-value snapshots of what the driver reports
//! (layer and extension names, queue-family properties, surface
//! capabilities); the unsafe driver calls themselves live outside it.

pub mod vulkan;
