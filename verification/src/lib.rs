//! Decision logic of a minimal Vulkan renderer: which device to open, how to
//! configure the swapchain, what the fixed triangle pipeline looks like, and in
//! which order a frame's GPU operations are issued.
//!
//! Every function here works on plain values. The embedding program makes the
//! Vulkan calls, hands their results in, and performs what these functions
//! return.

pub mod bindings;
pub mod context;
pub mod device;
pub mod error;
pub mod frame;
pub mod pipeline;
pub mod renderer;
pub mod swapchain;
pub mod vulkan;
pub mod window;
