use vk_renderer::error::RendererError;

#[test]
fn errors_carry_the_drivers_code() {
    assert_eq!(RendererError::Initialization { code: -3 }.code(), Some(-3));
    assert_eq!(RendererError::SurfaceCreation { code: -1 }.code(), Some(-1));
    assert_eq!(RendererError::DeviceEnumeration { code: -2 }.code(), Some(-2));
    assert_eq!(RendererError::DeviceCreation { code: -4 }.code(), Some(-4));
    assert_eq!(RendererError::SwapchainCreation { code: -5 }.code(), Some(-5));
    assert_eq!(RendererError::ImageViewCreation { code: -6 }.code(), Some(-6));
    assert_eq!(RendererError::PipelineCreation { code: -7 }.code(), Some(-7));
    assert_eq!(RendererError::FramebufferCreation { code: -8 }.code(), Some(-8));
    assert_eq!(RendererError::CommandSetup { code: -9 }.code(), Some(-9));
    assert_eq!(RendererError::FrameSubmission { code: -10 }.code(), Some(-10));
    assert_eq!(RendererError::NoSuitableDevice.code(), None);
    assert_eq!(RendererError::NoSupportedFormats.code(), None);
    assert_eq!(RendererError::NoPipelineReturned.code(), None);
    assert_eq!(RendererError::OutOfTurn.code(), None);
    assert_eq!(RendererError::BadExtensionName { index: 3 }.code(), None);
    assert_eq!(RendererError::ImageIndexOutOfRange { index: 3 }.code(), None);
}

#[test]
fn errors_say_what_went_wrong() {
    assert_eq!(
        RendererError::NoSupportedFormats.message(),
        "No valid swapchain formats were provided"
    );
    assert_eq!(RendererError::NoSuitableDevice.message(), "Vulkan could not find a suitable GPU");
    assert_eq!(
        RendererError::PipelineCreation { code: -1 }.message(),
        "Failed to create Vulkan pipeline"
    );
    assert_eq!(RendererError::NoPipelineReturned.message(), "Failed to create Vulkan pipeline");
    assert_eq!(
        RendererError::FramebufferCreation { code: -1 }.message(),
        "Failed to create framebuffer"
    );
    assert_eq!(
        RendererError::ImageViewCreation { code: -1 }.message(),
        "Vulkan image view creation error"
    );
    assert_eq!(RendererError::BadExtensionName { index: 0 }.message(), "Failed to parse CString");
    assert_eq!(
        RendererError::Initialization { code: -1 }.message(),
        "Failed to create Vulkan instance"
    );
    assert_eq!(
        RendererError::SurfaceCreation { code: -1 }.message(),
        "Failed to create window surface"
    );
    assert_eq!(
        RendererError::DeviceEnumeration { code: -1 }.message(),
        "Failed to query Vulkan physical devices"
    );
    assert_eq!(
        RendererError::DeviceCreation { code: -1 }.message(),
        "Failed to create Vulkan logical device"
    );
    assert_eq!(
        RendererError::SwapchainCreation { code: -1 }.message(),
        "Failed to create Vulkan swapchain"
    );
    assert_eq!(
        RendererError::CommandSetup { code: -1 }.message(),
        "Failed to create Vulkan command buffer"
    );
    assert_eq!(
        RendererError::ImageIndexOutOfRange { index: 9 }.message(),
        "No framebuffer for the acquired image"
    );
    assert_eq!(RendererError::FrameSubmission { code: -1 }.message(), "Failed to draw frame");
    assert_eq!(RendererError::OutOfTurn.message(), "Renderer was driven out of turn");
}
