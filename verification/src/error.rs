//! The failures that setup and drawing report.

use vstd::prelude::*;
use vstd::string::*;

verus! {

/// Why a renderer could not be built, or a frame not drawn.
///
/// A `code` is the raw `VkResult` that the driver returned.
#[derive(Clone, Copy, Debug, PartialEq, Eq, Structural)]
pub enum RendererError {
    /// The Vulkan entry point could not be loaded, or the instance was refused.
    Initialization { code: i32 },
    /// The instance extension at this place in the list has a name that holds
    /// a NUL character.
    BadExtensionName { index: usize },
    /// The window could not provide a surface.
    SurfaceCreation { code: i32 },
    /// The physical devices or their properties could not be listed.
    DeviceEnumeration { code: i32 },
    /// No physical device is eligible.
    NoSuitableDevice,
    /// The logical device was refused.
    DeviceCreation { code: i32 },
    /// The surface reports no format at all.
    NoSupportedFormats,
    /// The swapchain or its images were refused.
    SwapchainCreation { code: i32 },
    /// An image view was refused.
    ImageViewCreation { code: i32 },
    /// A shader module, the layout, the render pass or the pipeline was refused.
    PipelineCreation { code: i32 },
    /// The driver reported success and returned no pipeline.
    NoPipelineReturned,
    /// A framebuffer was refused.
    FramebufferCreation { code: i32 },
    /// The command pool, the command buffer or a synchronisation object was
    /// refused.
    CommandSetup { code: i32 },
    /// The swapchain handed out an image for which there is no framebuffer.
    ImageIndexOutOfRange { index: u32 },
    /// Recording, submitting or presenting a frame failed.
    FrameSubmission { code: i32 },
    /// Something was reported that was not being waited for.
    OutOfTurn,
}

/// What to tell the user of an error.
pub open spec fn message_text(error: RendererError) -> Seq<char> {
    match error {
        RendererError::Initialization { code } => "Failed to create Vulkan instance"@,
        RendererError::BadExtensionName { index } => "Failed to parse CString"@,
        RendererError::SurfaceCreation { code } => "Failed to create window surface"@,
        RendererError::DeviceEnumeration { code } => "Failed to query Vulkan physical devices"@,
        RendererError::NoSuitableDevice => "Vulkan could not find a suitable GPU"@,
        RendererError::DeviceCreation { code } => "Failed to create Vulkan logical device"@,
        RendererError::NoSupportedFormats => "No valid swapchain formats were provided"@,
        RendererError::SwapchainCreation { code } => "Failed to create Vulkan swapchain"@,
        RendererError::ImageViewCreation { code } => "Vulkan image view creation error"@,
        RendererError::PipelineCreation { code } => "Failed to create Vulkan pipeline"@,
        RendererError::NoPipelineReturned => "Failed to create Vulkan pipeline"@,
        RendererError::FramebufferCreation { code } => "Failed to create framebuffer"@,
        RendererError::CommandSetup { code } => "Failed to create Vulkan command buffer"@,
        RendererError::ImageIndexOutOfRange { index } => "No framebuffer for the acquired image"@,
        RendererError::FrameSubmission { code } => "Failed to draw frame"@,
        RendererError::OutOfTurn => "Renderer was driven out of turn"@,
    }
}

impl RendererError {
    /// The raw `VkResult` that came with the error, where one did.
    pub open spec fn driver_code(&self) -> Option<i32> {
        match *self {
            RendererError::Initialization { code }
            | RendererError::SurfaceCreation { code }
            | RendererError::DeviceEnumeration { code }
            | RendererError::DeviceCreation { code }
            | RendererError::SwapchainCreation { code }
            | RendererError::ImageViewCreation { code }
            | RendererError::PipelineCreation { code }
            | RendererError::FramebufferCreation { code }
            | RendererError::CommandSetup { code }
            | RendererError::FrameSubmission { code } => Some(code),
            _ => None,
        }
    }

    /// Gives the raw `VkResult` that came with the error, where one did.
    pub fn code(&self) -> (r: Option<i32>)
        ensures
            r == self.driver_code(),
    {
        match *self {
            RendererError::Initialization { code }
            | RendererError::SurfaceCreation { code }
            | RendererError::DeviceEnumeration { code }
            | RendererError::DeviceCreation { code }
            | RendererError::SwapchainCreation { code }
            | RendererError::ImageViewCreation { code }
            | RendererError::PipelineCreation { code }
            | RendererError::FramebufferCreation { code }
            | RendererError::CommandSetup { code }
            | RendererError::FrameSubmission { code } => Some(code),
            _ => None,
        }
    }

    /// Says in words what went wrong.
    pub fn message(&self) -> (text: String)
        ensures
            text@ == message_text(*self),
    {
        match *self {
            RendererError::Initialization { code } => String::from_str(
                "Failed to create Vulkan instance",
            ),
            RendererError::BadExtensionName { index } => String::from_str(
                "Failed to parse CString",
            ),
            RendererError::SurfaceCreation { code } => String::from_str(
                "Failed to create window surface",
            ),
            RendererError::DeviceEnumeration { code } => String::from_str(
                "Failed to query Vulkan physical devices",
            ),
            RendererError::NoSuitableDevice => String::from_str(
                "Vulkan could not find a suitable GPU",
            ),
            RendererError::DeviceCreation { code } => String::from_str(
                "Failed to create Vulkan logical device",
            ),
            RendererError::NoSupportedFormats => String::from_str(
                "No valid swapchain formats were provided",
            ),
            RendererError::SwapchainCreation { code } => String::from_str(
                "Failed to create Vulkan swapchain",
            ),
            RendererError::ImageViewCreation { code } => String::from_str(
                "Vulkan image view creation error",
            ),
            RendererError::PipelineCreation { code } => String::from_str(
                "Failed to create Vulkan pipeline",
            ),
            RendererError::NoPipelineReturned => String::from_str(
                "Failed to create Vulkan pipeline",
            ),
            RendererError::FramebufferCreation { code } => String::from_str(
                "Failed to create framebuffer",
            ),
            RendererError::CommandSetup { code } => String::from_str(
                "Failed to create Vulkan command buffer",
            ),
            RendererError::ImageIndexOutOfRange { index } => String::from_str(
                "No framebuffer for the acquired image",
            ),
            RendererError::FrameSubmission { code } => String::from_str("Failed to draw frame"),
            RendererError::OutOfTurn => String::from_str("Renderer was driven out of turn"),
        }
    }
}

} // verus!
