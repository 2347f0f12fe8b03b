//! Negotiating the swapchain against what the surface supports.

use vstd::prelude::*;
use crate::bindings::{
    clamp_u32, clamped, color_space_srgb_nonlinear, format_b8g8r8a8_srgb, present_mode_fifo,
    present_mode_mailbox,
};
use crate::vulkan::{
    COLOR_SPACE_SRGB_NONLINEAR, COMPONENT_SWIZZLE_IDENTITY, COMPOSITE_ALPHA_OPAQUE,
    EXTENT_UNDEFINED, FORMAT_B8G8R8A8_SRGB, IMAGE_ASPECT_COLOR, IMAGE_USAGE_COLOR_ATTACHMENT,
    IMAGE_VIEW_TYPE_2D, PRESENT_MODE_FIFO, PRESENT_MODE_MAILBOX,
};
use crate::device::QueueFamilies;
use crate::window::Window;
use crate::error::RendererError;

verus! {

/// A pixel format together with the colour space it is shown in, both as raw
/// Vulkan enumerants.
#[derive(Clone, Copy, Debug, PartialEq, Eq, Structural)]
pub struct SurfaceFormat {
    pub format: i32,
    pub color_space: i32,
}

/// A size in pixels.
#[derive(Clone, Copy, Debug, PartialEq, Eq, Structural)]
pub struct Extent2D {
    pub width: u32,
    pub height: u32,
}

/// The pair this renderer prefers: 8-bit BGRA sRGB, shown as sRGB non-linear.
pub open spec fn preferred_format() -> SurfaceFormat {
    SurfaceFormat { format: FORMAT_B8G8R8A8_SRGB, color_space: COLOR_SPACE_SRGB_NONLINEAR }
}

/// The format chosen from `formats`: the preferred pair wherever it stands in
/// the list, else the first entry, else nothing.
pub open spec fn chosen_format(formats: Seq<SurfaceFormat>) -> Option<SurfaceFormat> {
    if formats.contains(preferred_format()) {
        Some(preferred_format())
    } else if formats.len() > 0 {
        Some(formats[0])
    } else {
        None
    }
}

/// Picks the surface format for the swapchain.
pub fn choose_swapchain_format(formats: &Vec<SurfaceFormat>) -> (r: Result<
    SurfaceFormat,
    RendererError,
>)
    ensures
        chosen_format(formats@) matches Some(f) ==> r == Ok::<SurfaceFormat, RendererError>(f),
        chosen_format(formats@) is None ==> r == Err::<SurfaceFormat, RendererError>(
            RendererError::NoSupportedFormats,
        ),
{
    let wanted_format: i32 = format_b8g8r8a8_srgb();
    let wanted_space: i32 = color_space_srgb_nonlinear();
    let mut i: usize = 0;
    while i < formats.len()
        invariant
            i <= formats.len(),
            wanted_format == FORMAT_B8G8R8A8_SRGB,
            wanted_space == COLOR_SPACE_SRGB_NONLINEAR,
            forall|j: int| 0 <= j < i ==> formats@[j] != preferred_format(),
        decreases formats.len() - i,
    {
        let f: SurfaceFormat = formats[i];
        if f.format == wanted_format && f.color_space == wanted_space {
            assert(formats@[i as int] == preferred_format());
            return Ok(f);
        }
        i += 1;
    }
    if formats.len() > 0 {
        Ok(formats[0])
    } else {
        Err(RendererError::NoSupportedFormats)
    }
}

/// The present mode chosen from `modes`: mailbox where the surface offers it,
/// else FIFO, which every surface has.
pub open spec fn chosen_present_mode(modes: Seq<i32>) -> i32 {
    if modes.contains(PRESENT_MODE_MAILBOX) {
        PRESENT_MODE_MAILBOX
    } else {
        PRESENT_MODE_FIFO
    }
}

/// Picks the present mode for the swapchain.
pub fn choose_swapchain_present_mode(modes: &Vec<i32>) -> (r: i32)
    ensures
        r == chosen_present_mode(modes@),
{
    let mailbox: i32 = present_mode_mailbox();
    let mut i: usize = 0;
    while i < modes.len()
        invariant
            i <= modes.len(),
            mailbox == PRESENT_MODE_MAILBOX,
            forall|j: int| 0 <= j < i ==> modes@[j] != PRESENT_MODE_MAILBOX,
        decreases modes.len() - i,
    {
        if modes[i] == mailbox {
            assert(modes@[i as int] == PRESENT_MODE_MAILBOX);
            return mailbox;
        }
        i += 1;
    }
    present_mode_fifo()
}

/// What the surface allows of a swapchain.
#[derive(Clone, Copy, Debug, PartialEq, Eq, Structural)]
pub struct SurfaceCapabilities {
    pub min_image_count: u32,
    /// Zero where the surface sets no upper limit.
    pub max_image_count: u32,
    /// Width `EXTENT_UNDEFINED` where the swapchain decides the size.
    pub current_extent: Extent2D,
    pub min_image_extent: Extent2D,
    pub max_image_extent: Extent2D,
    /// The surface's current transform, as raw `VkSurfaceTransformFlagBitsKHR`.
    pub current_transform: u32,
}

/// The swapchain's size: the surface's own where it has one, else the window's
/// drawable size with each axis brought into the surface's limits.
pub open spec fn chosen_extent(caps: SurfaceCapabilities, width: u32, height: u32) -> Extent2D {
    if caps.current_extent.width != EXTENT_UNDEFINED {
        caps.current_extent
    } else {
        Extent2D {
            width: clamped(width, caps.min_image_extent.width, caps.max_image_extent.width),
            height: clamped(height, caps.min_image_extent.height, caps.max_image_extent.height),
        }
    }
}

/// One axis of the window's size brought into the surface's limits. Limits
/// that cross (`min > max`) are resolved as `clamped` states it: `min` for an
/// input below `min`, else `max`.
fn clamp_axis(input: u32, min: u32, max: u32) -> (r: u32)
    ensures
        r == clamped(input, min, max),
{
    if min <= max {
        clamp_u32(input, min, max)
    } else if input < min {
        min
    } else {
        max
    }
}

/// Picks the swapchain's size for a window whose drawable area is `width` by
/// `height` pixels.
pub fn extent_for_size(caps: &SurfaceCapabilities, width: u32, height: u32) -> (r: Extent2D)
    ensures
        r == chosen_extent(*caps, width, height),
{
    if caps.current_extent.width != EXTENT_UNDEFINED {
        return caps.current_extent;
    }
    Extent2D {
        width: clamp_axis(width, caps.min_image_extent.width, caps.max_image_extent.width),
        height: clamp_axis(height, caps.min_image_extent.height, caps.max_image_extent.height),
    }
}

/// Picks the swapchain's size for `window`, which is asked for its drawable
/// size only where the surface leaves the size open. The window answers as it
/// pleases, so the second clause holds for whatever size it gave.
pub fn choose_swapchain_extent<W: Window>(caps: &SurfaceCapabilities, window: &W) -> (r: Extent2D)
    ensures
        caps.current_extent.width != EXTENT_UNDEFINED ==> r == caps.current_extent,
        caps.current_extent.width == EXTENT_UNDEFINED ==> exists|width: u32, height: u32|
            r == chosen_extent(*caps, width, height),
{
    if caps.current_extent.width != EXTENT_UNDEFINED {
        return caps.current_extent;
    }
    let (width, height) = window.get_size();
    extent_for_size(caps, width, height)
}

/// The number of images to ask for: one more than the surface's minimum, cut
/// down to its maximum where it has one.
pub open spec fn chosen_image_count(caps: SurfaceCapabilities) -> int {
    if caps.max_image_count > 0 && caps.min_image_count + 1 > caps.max_image_count {
        caps.max_image_count as int
    } else {
        caps.min_image_count + 1
    }
}

/// Whether the number of images to ask for can be written in `u32`. It cannot
/// for a surface with no upper limit whose minimum is already the largest
/// `u32`, and for no other.
pub fn image_count_fits(caps: &SurfaceCapabilities) -> (r: bool)
    ensures
        r == (chosen_image_count(*caps) <= u32::MAX),
{
    caps.max_image_count > 0 || caps.min_image_count < u32::MAX
}

/// Picks the number of swapchain images.
pub fn choose_image_count(caps: &SurfaceCapabilities) -> (r: u32)
    requires
        chosen_image_count(*caps) <= u32::MAX,
    ensures
        r == chosen_image_count(*caps),
{
    if caps.max_image_count > 0 && caps.min_image_count >= caps.max_image_count {
        caps.max_image_count
    } else {
        caps.min_image_count + 1
    }
}

/// How the swapchain's images are shared between queue families.
#[derive(Clone, Copy, Debug, PartialEq, Eq, Structural)]
pub enum ImageSharing {
    /// One family owns the images.
    Exclusive,
    /// The two families named use the images concurrently.
    Concurrent { graphics: u32, present: u32 },
}

/// Concurrent sharing across the two families where they differ, exclusive
/// ownership where one family fills both roles.
pub open spec fn chosen_sharing(families: QueueFamilies) -> ImageSharing
    recommends
        families.complete(),
{
    let graphics = families.graphics_family->Some_0;
    let present = families.present_family->Some_0;
    if graphics != present {
        ImageSharing::Concurrent { graphics, present }
    } else {
        ImageSharing::Exclusive
    }
}

/// Picks the sharing mode of the swapchain's images.
pub fn choose_sharing_mode(families: &QueueFamilies) -> (r: ImageSharing)
    requires
        families.complete(),
    ensures
        r == chosen_sharing(*families),
{
    match (families.graphics_family, families.present_family) {
        (Some(graphics), Some(present)) => {
            if graphics != present {
                ImageSharing::Concurrent { graphics, present }
            } else {
                ImageSharing::Exclusive
            }
        },
        _ => ImageSharing::Exclusive,
    }
}

/// What a device offers for presenting to one surface.
#[derive(Debug)]
pub struct SwapChainSupport {
    pub capabilities: SurfaceCapabilities,
    pub formats: Vec<SurfaceFormat>,
    pub present_modes: Vec<i32>,
}

impl SwapChainSupport {
    /// The device offers at least one format and one present mode.
    pub open spec fn usable(&self) -> bool {
        self.formats@.len() > 0 && self.present_modes@.len() > 0
    }

    /// Whether the device offers at least one format and one present mode.
    #[verifier::when_used_as_spec(usable)]
    pub fn supported(&self) -> (r: bool)
        ensures
            r == self.usable(),
    {
        !self.formats.is_empty() && !self.present_modes.is_empty()
    }
}

/// Everything that creating the swapchain is told.
#[derive(Clone, Copy, Debug, PartialEq, Eq, Structural)]
pub struct SwapchainPlan {
    pub min_image_count: u32,
    pub format: SurfaceFormat,
    pub extent: Extent2D,
    pub image_array_layers: u32,
    /// Raw `VkImageUsageFlags`.
    pub image_usage: u32,
    pub sharing: ImageSharing,
    /// Raw `VkSurfaceTransformFlagBitsKHR`.
    pub pre_transform: u32,
    /// Raw `VkCompositeAlphaFlagBitsKHR`.
    pub composite_alpha: u32,
    /// Raw `VkPresentModeKHR`.
    pub present_mode: i32,
    pub clipped: bool,
    /// Whether an earlier swapchain is handed over; this renderer never does.
    pub replaces_old: bool,
}

/// The swapchain for a surface with the given support, once a format is found:
/// single-layer colour-attachment images, opaque, clipped, in the surface's
/// current transform.
pub open spec fn planned_swapchain(
    caps: SurfaceCapabilities,
    format: SurfaceFormat,
    present_modes: Seq<i32>,
    families: QueueFamilies,
    width: u32,
    height: u32,
) -> SwapchainPlan {
    SwapchainPlan {
        min_image_count: chosen_image_count(caps) as u32,
        format,
        extent: chosen_extent(caps, width, height),
        image_array_layers: 1,
        image_usage: IMAGE_USAGE_COLOR_ATTACHMENT,
        sharing: chosen_sharing(families),
        pre_transform: caps.current_transform,
        composite_alpha: COMPOSITE_ALPHA_OPAQUE,
        present_mode: chosen_present_mode(present_modes),
        clipped: true,
        replaces_old: false,
    }
}

/// Plans the swapchain for a window whose drawable area is `width` by `height`
/// pixels. It fails exactly when the surface reports no format.
pub fn plan_swapchain(
    support: &SwapChainSupport,
    families: &QueueFamilies,
    width: u32,
    height: u32,
) -> (r: Result<SwapchainPlan, RendererError>)
    requires
        families.complete(),
        chosen_image_count(support.capabilities) <= u32::MAX,
    ensures
        chosen_format(support.formats@) matches Some(format) ==> r == Ok::<
            SwapchainPlan,
            RendererError,
        >(
            planned_swapchain(
                support.capabilities,
                format,
                support.present_modes@,
                *families,
                width,
                height,
            ),
        ),
        chosen_format(support.formats@) is None ==> r == Err::<SwapchainPlan, RendererError>(
            RendererError::NoSupportedFormats,
        ),
{
    let format: SurfaceFormat = match choose_swapchain_format(&support.formats) {
        Ok(format) => format,
        Err(e) => {
            return Err(e);
        },
    };
    let present_mode: i32 = choose_swapchain_present_mode(&support.present_modes);
    let extent: Extent2D = extent_for_size(&support.capabilities, width, height);
    let min_image_count: u32 = choose_image_count(&support.capabilities);
    let sharing: ImageSharing = choose_sharing_mode(families);
    Ok(
        SwapchainPlan {
            min_image_count,
            format,
            extent,
            image_array_layers: 1,
            image_usage: IMAGE_USAGE_COLOR_ATTACHMENT,
            sharing,
            pre_transform: support.capabilities.current_transform,
            composite_alpha: COMPOSITE_ALPHA_OPAQUE,
            present_mode,
            clipped: true,
            replaces_old: false,
        },
    )
}

/// Everything that creating one image view is told.
#[derive(Clone, Copy, Debug, PartialEq, Eq, Structural)]
pub struct ImageViewPlan {
    /// The image's handle.
    pub image: u64,
    /// Raw `VkImageViewType`.
    pub view_type: i32,
    /// Raw `VkFormat`.
    pub format: i32,
    /// Raw `VkComponentSwizzle` of the four channels.
    pub swizzle_r: i32,
    pub swizzle_g: i32,
    pub swizzle_b: i32,
    pub swizzle_a: i32,
    /// Raw `VkImageAspectFlags`.
    pub aspect_mask: u32,
    pub base_mip_level: u32,
    pub level_count: u32,
    pub base_array_layer: u32,
    pub layer_count: u32,
}

/// The view of one presentable image: a 2D colour view of its single mip level
/// and single layer, with no channel swapped.
pub open spec fn planned_image_view(image: u64, format: i32) -> ImageViewPlan {
    ImageViewPlan {
        image,
        view_type: IMAGE_VIEW_TYPE_2D,
        format,
        swizzle_r: COMPONENT_SWIZZLE_IDENTITY,
        swizzle_g: COMPONENT_SWIZZLE_IDENTITY,
        swizzle_b: COMPONENT_SWIZZLE_IDENTITY,
        swizzle_a: COMPONENT_SWIZZLE_IDENTITY,
        aspect_mask: IMAGE_ASPECT_COLOR,
        base_mip_level: 0,
        level_count: 1,
        base_array_layer: 0,
        layer_count: 1,
    }
}

/// Plans one view for each of the swapchain's images, in the images' order.
pub fn plan_image_views(images: &Vec<u64>, format: i32) -> (views: Vec<ImageViewPlan>)
    ensures
        views@.len() == images@.len(),
        forall|i: int|
            0 <= i < images@.len() ==> #[trigger] views@[i] == planned_image_view(
                images@[i],
                format,
            ),
{
    let mut views: Vec<ImageViewPlan> = Vec::new();
    let mut i: usize = 0;
    while i < images.len()
        invariant
            i <= images.len(),
            views@.len() == i,
            forall|k: int|
                0 <= k < i ==> #[trigger] views@[k] == planned_image_view(images@[k], format),
        decreases images.len() - i,
    {
        views.push(
            ImageViewPlan {
                image: images[i],
                view_type: IMAGE_VIEW_TYPE_2D,
                format,
                swizzle_r: COMPONENT_SWIZZLE_IDENTITY,
                swizzle_g: COMPONENT_SWIZZLE_IDENTITY,
                swizzle_b: COMPONENT_SWIZZLE_IDENTITY,
                swizzle_a: COMPONENT_SWIZZLE_IDENTITY,
                aspect_mask: IMAGE_ASPECT_COLOR,
                base_mip_level: 0,
                level_count: 1,
                base_array_layer: 0,
                layer_count: 1,
            },
        );
        i += 1;
    }
    views
}

/// A swapchain with its images and the views made of them.
#[derive(Debug)]
pub struct SwapChain {
    /// The swapchain's handle.
    pub swapchain: u64,
    /// The presentable images, which the swapchain owns.
    pub images: Vec<u64>,
    /// One view per image, which the renderer owns.
    pub image_views: Vec<u64>,
    /// Raw `VkFormat` of the images.
    pub format: i32,
    pub extent: Extent2D,
}

impl SwapChain {
    /// Each image has its view.
    pub open spec fn well_formed(&self) -> bool {
        self.images@.len() == self.image_views@.len()
    }

    /// Bundles a swapchain with its images and views. There is no bundle
    /// unless there are as many views as images.
    pub fn new(
        swapchain: u64,
        images: Vec<u64>,
        image_views: Vec<u64>,
        format: i32,
        extent: Extent2D,
    ) -> (r: Option<SwapChain>)
        ensures
            r is Some <==> images@.len() == image_views@.len(),
            r matches Some(s) ==> {
                &&& s.well_formed()
                &&& s.swapchain == swapchain
                &&& s.images@ == images@
                &&& s.image_views@ == image_views@
                &&& s.format == format
                &&& s.extent == extent
            },
    {
        if images.len() == image_views.len() {
            Some(SwapChain { swapchain, images, image_views, format, extent })
        } else {
            None
        }
    }
}

} // verus!
