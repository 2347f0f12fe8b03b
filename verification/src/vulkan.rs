//! The numbers that the Vulkan registry assigns to the enumerants and bits this
//! library speaks of, and the bit patterns of the few `f32` values it hands on.
//!
//! Vulkan enumerants cross the library's boundary as these raw numbers.

use vstd::prelude::*;

verus! {


/// `VK_FORMAT_B8G8R8A8_SRGB`.
pub const FORMAT_B8G8R8A8_SRGB: i32 = 50;

/// `VK_COLOR_SPACE_SRGB_NONLINEAR_KHR`.
pub const COLOR_SPACE_SRGB_NONLINEAR: i32 = 0;

/// `VK_PRESENT_MODE_MAILBOX_KHR`.
pub const PRESENT_MODE_MAILBOX: i32 = 1;

/// `VK_PRESENT_MODE_FIFO_KHR`.
pub const PRESENT_MODE_FIFO: i32 = 2;

/// `VK_PHYSICAL_DEVICE_TYPE_DISCRETE_GPU`.
pub const DEVICE_TYPE_DISCRETE_GPU: i32 = 2;

/// `VK_QUEUE_GRAPHICS_BIT`.
pub const QUEUE_GRAPHICS: u32 = 1;

/// `VK_IMAGE_USAGE_COLOR_ATTACHMENT_BIT`.
pub const IMAGE_USAGE_COLOR_ATTACHMENT: u32 = 0x10;

/// `VK_COMPOSITE_ALPHA_OPAQUE_BIT_KHR`.
pub const COMPOSITE_ALPHA_OPAQUE: u32 = 0x1;

/// `VK_IMAGE_VIEW_TYPE_2D`.
pub const IMAGE_VIEW_TYPE_2D: i32 = 1;

/// `VK_COMPONENT_SWIZZLE_IDENTITY`.
pub const COMPONENT_SWIZZLE_IDENTITY: i32 = 0;

/// `VK_IMAGE_ASPECT_COLOR_BIT`.
pub const IMAGE_ASPECT_COLOR: u32 = 0x1;

/// The width that a surface reports when its size is set by the swapchain.
pub const EXTENT_UNDEFINED: u32 = 0xffff_ffff;

/// `VK_DEBUG_UTILS_MESSAGE_SEVERITY_VERBOSE_BIT_EXT`.
pub const SEVERITY_VERBOSE: u32 = 0x1;

/// `VK_DEBUG_UTILS_MESSAGE_SEVERITY_INFO_BIT_EXT`.
pub const SEVERITY_INFO: u32 = 0x10;

/// `VK_DEBUG_UTILS_MESSAGE_SEVERITY_WARNING_BIT_EXT`.
pub const SEVERITY_WARNING: u32 = 0x100;

/// `VK_DEBUG_UTILS_MESSAGE_SEVERITY_ERROR_BIT_EXT`.
pub const SEVERITY_ERROR: u32 = 0x1000;

/// `VK_DEBUG_UTILS_MESSAGE_TYPE_GENERAL_BIT_EXT`.
pub const MESSAGE_TYPE_GENERAL: u32 = 0x1;

/// `VK_DEBUG_UTILS_MESSAGE_TYPE_VALIDATION_BIT_EXT`.
pub const MESSAGE_TYPE_VALIDATION: u32 = 0x2;

/// `VK_DEBUG_UTILS_MESSAGE_TYPE_PERFORMANCE_BIT_EXT`.
pub const MESSAGE_TYPE_PERFORMANCE: u32 = 0x4;

/// The bit pattern of the `f32` value 1.0.
pub const F32_ONE: u32 = 0x3f80_0000;

/// The bit pattern of the `f32` value 0.0.
pub const F32_ZERO: u32 = 0;

/// `VK_SAMPLE_COUNT_1_BIT`.
pub const SAMPLE_COUNT_1: u32 = 0x1;

/// `VK_ATTACHMENT_LOAD_OP_CLEAR`.
pub const LOAD_OP_CLEAR: i32 = 1;

/// `VK_ATTACHMENT_LOAD_OP_DONT_CARE`.
pub const LOAD_OP_DONT_CARE: i32 = 2;

/// `VK_ATTACHMENT_STORE_OP_STORE`.
pub const STORE_OP_STORE: i32 = 0;

/// `VK_ATTACHMENT_STORE_OP_DONT_CARE`.
pub const STORE_OP_DONT_CARE: i32 = 1;

/// `VK_IMAGE_LAYOUT_UNDEFINED`.
pub const IMAGE_LAYOUT_UNDEFINED: i32 = 0;

/// `VK_IMAGE_LAYOUT_COLOR_ATTACHMENT_OPTIMAL`.
pub const IMAGE_LAYOUT_COLOR_ATTACHMENT_OPTIMAL: i32 = 2;

/// `VK_IMAGE_LAYOUT_PRESENT_SRC_KHR`.
pub const IMAGE_LAYOUT_PRESENT_SRC: i32 = 1_000_001_002;

/// `VK_PIPELINE_BIND_POINT_GRAPHICS`.
pub const PIPELINE_BIND_POINT_GRAPHICS: i32 = 0;

/// `VK_SUBPASS_EXTERNAL`.
pub const SUBPASS_EXTERNAL: u32 = 0xffff_ffff;

/// `VK_PIPELINE_STAGE_COLOR_ATTACHMENT_OUTPUT_BIT`.
pub const PIPELINE_STAGE_COLOR_ATTACHMENT_OUTPUT: u32 = 0x400;

/// `VK_ACCESS_COLOR_ATTACHMENT_WRITE_BIT`.
pub const ACCESS_COLOR_ATTACHMENT_WRITE: u32 = 0x100;

/// `VK_SHADER_STAGE_VERTEX_BIT`.
pub const SHADER_STAGE_VERTEX: u32 = 0x1;

/// `VK_SHADER_STAGE_FRAGMENT_BIT`.
pub const SHADER_STAGE_FRAGMENT: u32 = 0x10;

/// `VK_DYNAMIC_STATE_VIEWPORT`.
pub const DYNAMIC_STATE_VIEWPORT: i32 = 0;

/// `VK_DYNAMIC_STATE_SCISSOR`.
pub const DYNAMIC_STATE_SCISSOR: i32 = 1;

/// `VK_PRIMITIVE_TOPOLOGY_TRIANGLE_LIST`.
pub const TOPOLOGY_TRIANGLE_LIST: i32 = 3;

/// `VK_POLYGON_MODE_FILL`.
pub const POLYGON_MODE_FILL: i32 = 0;

/// `VK_CULL_MODE_BACK_BIT`.
pub const CULL_MODE_BACK: u32 = 0x2;

/// `VK_FRONT_FACE_CLOCKWISE`.
pub const FRONT_FACE_CLOCKWISE: i32 = 1;

/// `VK_COLOR_COMPONENT_R_BIT`.
pub const COLOR_COMPONENT_R: u32 = 0x1;

/// `VK_COLOR_COMPONENT_G_BIT`.
pub const COLOR_COMPONENT_G: u32 = 0x2;

/// `VK_COLOR_COMPONENT_B_BIT`.
pub const COLOR_COMPONENT_B: u32 = 0x4;

/// `VK_COLOR_COMPONENT_A_BIT`.
pub const COLOR_COMPONENT_A: u32 = 0x8;

/// All four colour components.
pub const COLOR_COMPONENT_RGBA: u32 = 0xf;

/// `VK_BLEND_FACTOR_ZERO`.
pub const BLEND_FACTOR_ZERO: i32 = 0;

/// `VK_BLEND_FACTOR_ONE`.
pub const BLEND_FACTOR_ONE: i32 = 1;

/// `VK_BLEND_OP_ADD`.
pub const BLEND_OP_ADD: i32 = 0;

/// `VK_LOGIC_OP_COPY`.
pub const LOGIC_OP_COPY: i32 = 3;

/// `VK_COMMAND_POOL_CREATE_RESET_COMMAND_BUFFER_BIT`.
pub const COMMAND_POOL_RESET_COMMAND_BUFFER: u32 = 0x2;

/// `VK_COMMAND_BUFFER_LEVEL_PRIMARY`.
pub const COMMAND_BUFFER_LEVEL_PRIMARY: i32 = 0;

/// `VK_FENCE_CREATE_SIGNALED_BIT`.
pub const FENCE_CREATE_SIGNALED: u32 = 0x1;

/// `VK_SUBPASS_CONTENTS_INLINE`.
pub const SUBPASS_CONTENTS_INLINE: i32 = 0;

/// A timeout that never runs out.
pub const TIMEOUT_NONE: u64 = 0xffff_ffff_ffff_ffff;

} // verus!
