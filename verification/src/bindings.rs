//! What this library calls in the `ash` bindings and in `num-traits`.
//!
//! The values that the library's decisions turn on are read from the bindings, so
//! that the compiled library follows them. Each contract here is believed, not
//! proved: it records what the crate's source shows.

use vstd::prelude::*;
use crate::vulkan::{
    COLOR_SPACE_SRGB_NONLINEAR, DEVICE_TYPE_DISCRETE_GPU, FORMAT_B8G8R8A8_SRGB,
    PRESENT_MODE_FIFO, PRESENT_MODE_MAILBOX, QUEUE_GRAPHICS, SEVERITY_ERROR, SEVERITY_INFO,
    SEVERITY_VERBOSE, SEVERITY_WARNING,
};

verus! {

/// The name of the device extension that swapchains need.
pub open spec fn swapchain_extension() -> Seq<char> {
    "VK_KHR_swapchain"@
}

/// The name of the instance extension that carries diagnostic messages.
pub open spec fn debug_utils_extension() -> Seq<char> {
    "VK_EXT_debug_utils"@
}

/// How the bindings print the message categories `message_type`, a raw
/// `VkDebugUtilsMessageTypeFlagsEXT`.
pub uninterp spec fn message_type_label(message_type: u32) -> Seq<char>;

/// The value `input` brought into `[min, max]`: `min` below it, `max` above it.
pub open spec fn clamped(input: u32, min: u32, max: u32) -> u32 {
    if input < min {
        min
    } else if input > max {
        max
    } else {
        input
    }
}

/// `ash::vk::Format::as_raw` on `Format::B8G8R8A8_SRGB`, which the bindings
/// define as 50.
#[verifier::external_body]
pub(crate) fn format_b8g8r8a8_srgb() -> (raw: i32)
    ensures
        raw == FORMAT_B8G8R8A8_SRGB,
{
    ash::vk::Format::B8G8R8A8_SRGB.as_raw()
}

/// `ash::vk::ColorSpaceKHR::as_raw` on `ColorSpaceKHR::SRGB_NONLINEAR`, which
/// the bindings define as 0.
#[verifier::external_body]
pub(crate) fn color_space_srgb_nonlinear() -> (raw: i32)
    ensures
        raw == COLOR_SPACE_SRGB_NONLINEAR,
{
    ash::vk::ColorSpaceKHR::SRGB_NONLINEAR.as_raw()
}

/// `ash::vk::PresentModeKHR::as_raw` on `PresentModeKHR::MAILBOX`, which the
/// bindings define as 1.
#[verifier::external_body]
pub(crate) fn present_mode_mailbox() -> (raw: i32)
    ensures
        raw == PRESENT_MODE_MAILBOX,
{
    ash::vk::PresentModeKHR::MAILBOX.as_raw()
}

/// `ash::vk::PresentModeKHR::as_raw` on `PresentModeKHR::FIFO`, which the
/// bindings define as 2.
#[verifier::external_body]
pub(crate) fn present_mode_fifo() -> (raw: i32)
    ensures
        raw == PRESENT_MODE_FIFO,
{
    ash::vk::PresentModeKHR::FIFO.as_raw()
}

/// `ash::vk::PhysicalDeviceType::as_raw` on `PhysicalDeviceType::DISCRETE_GPU`,
/// which the bindings define as 2.
#[verifier::external_body]
pub(crate) fn device_type_discrete_gpu() -> (raw: i32)
    ensures
        raw == DEVICE_TYPE_DISCRETE_GPU,
{
    ash::vk::PhysicalDeviceType::DISCRETE_GPU.as_raw()
}

/// `ash::vk::QueueFlags::contains` with `QueueFlags::GRAPHICS` as its argument.
/// The bindings define `contains` as `self & other == other` on the raw bits,
/// and `GRAPHICS` as bit 0.
#[verifier::external_body]
pub(crate) fn queue_flags_have_graphics(flags: u32) -> (r: bool)
    ensures
        r == (flags & QUEUE_GRAPHICS == QUEUE_GRAPHICS),
{
    ash::vk::QueueFlags::from_raw(flags).contains(ash::vk::QueueFlags::GRAPHICS)
}

/// `ash::vk::KHR_SWAPCHAIN_NAME`, which the bindings define as the C string
/// `VK_KHR_swapchain`, as an owned string.
#[verifier::external_body]
pub(crate) fn swapchain_extension_name() -> (name: String)
    ensures
        name@ == swapchain_extension(),
{
    ash::vk::KHR_SWAPCHAIN_NAME.to_string_lossy().into_owned()
}

/// `ash::vk::EXT_DEBUG_UTILS_NAME`, which the bindings define as the C string
/// `VK_EXT_debug_utils`, as an owned string.
#[verifier::external_body]
pub(crate) fn debug_utils_extension_name() -> (name: String)
    ensures
        name@ == debug_utils_extension(),
{
    ash::vk::EXT_DEBUG_UTILS_NAME.to_string_lossy().into_owned()
}

/// `ash::vk::DebugUtilsMessageSeverityFlagsEXT::as_raw` on `VERBOSE`, which the
/// bindings define as bit 0.
#[verifier::external_body]
pub(crate) fn severity_verbose() -> (raw: u32)
    ensures
        raw == SEVERITY_VERBOSE,
{
    ash::vk::DebugUtilsMessageSeverityFlagsEXT::VERBOSE.as_raw()
}

/// `ash::vk::DebugUtilsMessageSeverityFlagsEXT::as_raw` on `INFO`, which the
/// bindings define as bit 4.
#[verifier::external_body]
pub(crate) fn severity_info() -> (raw: u32)
    ensures
        raw == SEVERITY_INFO,
{
    ash::vk::DebugUtilsMessageSeverityFlagsEXT::INFO.as_raw()
}

/// `ash::vk::DebugUtilsMessageSeverityFlagsEXT::as_raw` on `WARNING`, which the
/// bindings define as bit 8.
#[verifier::external_body]
pub(crate) fn severity_warning() -> (raw: u32)
    ensures
        raw == SEVERITY_WARNING,
{
    ash::vk::DebugUtilsMessageSeverityFlagsEXT::WARNING.as_raw()
}

/// `ash::vk::DebugUtilsMessageSeverityFlagsEXT::as_raw` on `ERROR`, which the
/// bindings define as bit 12.
#[verifier::external_body]
pub(crate) fn severity_error() -> (raw: u32)
    ensures
        raw == SEVERITY_ERROR,
{
    ash::vk::DebugUtilsMessageSeverityFlagsEXT::ERROR.as_raw()
}

/// The `Debug` form that the bindings give `DebugUtilsMessageTypeFlagsEXT`. It
/// is a function of the raw bits alone, and is known here by name only.
#[verifier::external_body]
pub(crate) fn format_message_type(message_type: u32) -> (label: String)
    ensures
        label@ == message_type_label(message_type),
{
    format!("{:?}", ash::vk::DebugUtilsMessageTypeFlagsEXT::from_raw(message_type))
}

/// `ash::vk::make_api_version`, which packs the four parts of a version into
/// one number by shifting and or-ing them, and checks none of them.
pub assume_specification[ ash::vk::make_api_version ](
    variant: u32,
    major: u32,
    minor: u32,
    patch: u32,
) -> (version: u32)
    ensures
        version == (variant << 29) | (major << 22) | (minor << 12) | patch,
;

/// `num_traits::clamp` at `u32`. It returns `min` for an input below `min`,
/// `max` for one above `max`, and the input otherwise; with debug assertions
/// on it panics unless `min <= max`, which is why that is required here.
#[verifier::external_body]
pub(crate) fn clamp_u32(input: u32, min: u32, max: u32) -> (r: u32)
    requires
        min <= max,
    ensures
        r == clamped(input, min, max),
{
    num_traits::clamp(input, min, max)
}

} // verus!
