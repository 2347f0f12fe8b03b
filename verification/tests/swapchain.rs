use vk_renderer::device::QueueFamilies;
use vk_renderer::error::RendererError;
use vk_renderer::swapchain::{
    choose_image_count, choose_sharing_mode, choose_swapchain_extent, choose_swapchain_format,
    choose_swapchain_present_mode, extent_for_size, image_count_fits, plan_image_views,
    plan_swapchain, Extent2D,
    ImageSharing, SurfaceCapabilities, SurfaceFormat, SwapChain, SwapChainSupport,
};
use vk_renderer::window::{Event, Window};

const BGRA_SRGB: SurfaceFormat = SurfaceFormat { format: 50, color_space: 0 };
const RGBA_UNORM: SurfaceFormat = SurfaceFormat { format: 37, color_space: 0 };
const BGRA_UNORM: SurfaceFormat = SurfaceFormat { format: 44, color_space: 0 };
const BGRA_SRGB_HDR: SurfaceFormat = SurfaceFormat { format: 50, color_space: 1_000_104_002 };

fn caps(current: (u32, u32), min: (u32, u32), max: (u32, u32)) -> SurfaceCapabilities {
    SurfaceCapabilities {
        min_image_count: 2,
        max_image_count: 0,
        current_extent: Extent2D { width: current.0, height: current.1 },
        min_image_extent: Extent2D { width: min.0, height: min.1 },
        max_image_extent: Extent2D { width: max.0, height: max.1 },
        current_transform: 1,
    }
}

#[derive(Debug)]
struct FixedWindow {
    size: (u32, u32),
}

impl Window for FixedWindow {
    fn set_callbacks(&mut self) {}

    fn get_size(&self) -> (u32, u32) {
        self.size
    }

    fn should_close(&self) -> bool {
        false
    }

    fn set_should_close(&mut self, _value: bool) {}

    fn get_events(&mut self) -> Vec<Event> {
        Vec::new()
    }

    fn get_requested_extensions(&self) -> Vec<String> {
        Vec::new()
    }

    fn create_surface(&self, _instance: u64) -> Result<u64, RendererError> {
        Ok(7)
    }
}

#[test]
fn preferred_format_is_chosen_wherever_it_stands() {
    for position in 0..4 {
        let mut formats = vec![RGBA_UNORM, BGRA_UNORM, BGRA_SRGB_HDR];
        formats.insert(position, BGRA_SRGB);
        assert_eq!(choose_swapchain_format(&formats), Ok(BGRA_SRGB));
    }
}

#[test]
fn preferred_format_matches_the_bindings() {
    let chosen = choose_swapchain_format(&vec![RGBA_UNORM, BGRA_SRGB]).unwrap();
    assert_eq!(chosen.format, ash::vk::Format::B8G8R8A8_SRGB.as_raw());
    assert_eq!(chosen.color_space, ash::vk::ColorSpaceKHR::SRGB_NONLINEAR.as_raw());
}

#[test]
fn first_format_is_the_fallback() {
    assert_eq!(choose_swapchain_format(&vec![RGBA_UNORM, BGRA_UNORM]), Ok(RGBA_UNORM));
    assert_eq!(choose_swapchain_format(&vec![BGRA_UNORM]), Ok(BGRA_UNORM));
}

#[test]
fn preferred_format_needs_its_color_space() {
    assert_eq!(choose_swapchain_format(&vec![BGRA_SRGB_HDR, RGBA_UNORM]), Ok(BGRA_SRGB_HDR));
    assert_eq!(
        choose_swapchain_format(&vec![BGRA_UNORM, BGRA_SRGB_HDR, BGRA_SRGB]),
        Ok(BGRA_SRGB)
    );
}

#[test]
fn no_format_is_an_error() {
    assert_eq!(choose_swapchain_format(&Vec::new()), Err(RendererError::NoSupportedFormats));
    assert_eq!(choose_swapchain_format(&Vec::new()), Err(RendererError::NoSupportedFormats));
}

#[test]
fn mailbox_is_chosen_where_offered() {
    assert_eq!(choose_swapchain_present_mode(&vec![2, 1]), 1);
    assert_eq!(choose_swapchain_present_mode(&vec![1]), 1);
    assert_eq!(choose_swapchain_present_mode(&vec![0, 3, 2, 1, 2]), 1);
    assert_eq!(
        choose_swapchain_present_mode(&vec![0, 1]),
        ash::vk::PresentModeKHR::MAILBOX.as_raw()
    );
}

#[test]
fn fifo_is_chosen_without_mailbox() {
    assert_eq!(choose_swapchain_present_mode(&vec![0, 2, 3]), 2);
    assert_eq!(choose_swapchain_present_mode(&vec![0]), 2);
    assert_eq!(choose_swapchain_present_mode(&Vec::new()), 2);
    assert_eq!(
        choose_swapchain_present_mode(&vec![0, 3]),
        ash::vk::PresentModeKHR::FIFO.as_raw()
    );
}

#[test]
fn undefined_extent_takes_the_window_size_within_limits() {
    let caps = caps((u32::MAX, u32::MAX), (64, 64), (1024, 1024));
    assert_eq!(extent_for_size(&caps, 2000, 100), Extent2D { width: 1024, height: 100 });
    assert_eq!(extent_for_size(&caps, 10, 5000), Extent2D { width: 64, height: 1024 });
    assert_eq!(extent_for_size(&caps, 800, 600), Extent2D { width: 800, height: 600 });
    assert_eq!(extent_for_size(&caps, 64, 1024), Extent2D { width: 64, height: 1024 });
    assert_eq!(extent_for_size(&caps, 0, u32::MAX), Extent2D { width: 64, height: 1024 });
}

#[test]
fn undefined_extent_asks_the_window() {
    let caps = caps((u32::MAX, u32::MAX), (64, 64), (1024, 1024));
    let window = FixedWindow { size: (2000, 100) };
    assert_eq!(choose_swapchain_extent(&caps, &window), Extent2D { width: 1024, height: 100 });
}

#[test]
fn defined_extent_is_used_as_it_is() {
    let caps = caps((800, 600), (64, 64), (1024, 1024));
    assert_eq!(extent_for_size(&caps, 2000, 100), Extent2D { width: 800, height: 600 });
    assert_eq!(extent_for_size(&caps, 1, 1), Extent2D { width: 800, height: 600 });
    let window = FixedWindow { size: (5, 5) };
    assert_eq!(choose_swapchain_extent(&caps, &window), Extent2D { width: 800, height: 600 });
}

#[test]
fn defined_extent_is_not_clamped() {
    let caps = caps((4000, 3000), (64, 64), (1024, 1024));
    assert_eq!(extent_for_size(&caps, 100, 100), Extent2D { width: 4000, height: 3000 });
}

#[test]
fn only_the_width_marks_an_undefined_extent() {
    let caps = caps((800, u32::MAX), (64, 64), (1024, 1024));
    assert_eq!(extent_for_size(&caps, 100, 100), Extent2D { width: 800, height: u32::MAX });
}

#[test]
fn crossed_limits_give_the_minimum_or_the_maximum() {
    let caps = caps((u32::MAX, 0), (500, 500), (100, 100));
    assert_eq!(extent_for_size(&caps, 50, 700), Extent2D { width: 500, height: 100 });
    assert_eq!(extent_for_size(&caps, 300, 499), Extent2D { width: 500, height: 500 });
}

#[test]
fn image_count_is_one_above_the_minimum() {
    let mut c = caps((800, 600), (1, 1), (4096, 4096));
    c.min_image_count = 2;
    c.max_image_count = 0;
    assert_eq!(choose_image_count(&c), 3);
    c.max_image_count = 8;
    assert_eq!(choose_image_count(&c), 3);
    c.max_image_count = 3;
    assert_eq!(choose_image_count(&c), 3);
}

#[test]
fn image_count_stops_at_the_maximum() {
    let mut c = caps((800, 600), (1, 1), (4096, 4096));
    c.min_image_count = 2;
    c.max_image_count = 2;
    assert_eq!(choose_image_count(&c), 2);
    c.min_image_count = 5;
    c.max_image_count = 3;
    assert_eq!(choose_image_count(&c), 3);
    c.min_image_count = u32::MAX;
    c.max_image_count = 4;
    assert_eq!(choose_image_count(&c), 4);
    c.min_image_count = u32::MAX - 1;
    c.max_image_count = 0;
    assert_eq!(choose_image_count(&c), u32::MAX);
}

#[test]
fn image_count_fits_but_for_one_case() {
    let mut c = caps((800, 600), (1, 1), (4096, 4096));
    c.min_image_count = u32::MAX;
    c.max_image_count = 0;
    assert!(!image_count_fits(&c));
    c.max_image_count = 1;
    assert!(image_count_fits(&c));
    c.min_image_count = u32::MAX - 1;
    c.max_image_count = 0;
    assert!(image_count_fits(&c));
}

#[test]
fn different_families_share_concurrently() {
    let families = QueueFamilies { graphics_family: Some(2), present_family: Some(0) };
    assert_eq!(
        choose_sharing_mode(&families),
        ImageSharing::Concurrent { graphics: 2, present: 0 }
    );
}

#[test]
fn one_family_owns_exclusively() {
    let families = QueueFamilies { graphics_family: Some(1), present_family: Some(1) };
    assert_eq!(choose_sharing_mode(&families), ImageSharing::Exclusive);
}

#[test]
fn support_needs_a_format_and_a_mode() {
    let c = caps((800, 600), (1, 1), (4096, 4096));
    let both = SwapChainSupport { capabilities: c, formats: vec![BGRA_SRGB], present_modes: vec![2] };
    let no_format = SwapChainSupport { capabilities: c, formats: vec![], present_modes: vec![2] };
    let no_mode = SwapChainSupport { capabilities: c, formats: vec![BGRA_SRGB], present_modes: vec![] };
    assert!(both.supported());
    assert!(!no_format.supported());
    assert!(!no_mode.supported());
}

#[test]
fn swapchain_plan_puts_the_choices_together() {
    let mut c = caps((u32::MAX, u32::MAX), (64, 64), (1024, 1024));
    c.min_image_count = 2;
    c.max_image_count = 3;
    c.current_transform = 0x100;
    let support = SwapChainSupport {
        capabilities: c,
        formats: vec![BGRA_UNORM, BGRA_SRGB],
        present_modes: vec![2, 1],
    };
    let families = QueueFamilies { graphics_family: Some(2), present_family: Some(0) };
    let plan = plan_swapchain(&support, &families, 2000, 100).unwrap();
    assert_eq!(plan.min_image_count, 3);
    assert_eq!(plan.format, BGRA_SRGB);
    assert_eq!(plan.extent, Extent2D { width: 1024, height: 100 });
    assert_eq!(plan.image_array_layers, 1);
    assert_eq!(plan.image_usage, ash::vk::ImageUsageFlags::COLOR_ATTACHMENT.as_raw());
    assert_eq!(plan.sharing, ImageSharing::Concurrent { graphics: 2, present: 0 });
    assert_eq!(plan.pre_transform, 0x100);
    assert_eq!(plan.composite_alpha, ash::vk::CompositeAlphaFlagsKHR::OPAQUE.as_raw());
    assert_eq!(plan.present_mode, 1);
    assert!(plan.clipped);
    assert!(!plan.replaces_old);
}

#[test]
fn swapchain_plan_fails_without_formats() {
    let support = SwapChainSupport {
        capabilities: caps((800, 600), (1, 1), (4096, 4096)),
        formats: vec![],
        present_modes: vec![2],
    };
    let families = QueueFamilies { graphics_family: Some(0), present_family: Some(0) };
    assert_eq!(
        plan_swapchain(&support, &families, 800, 600),
        Err(RendererError::NoSupportedFormats)
    );
}

#[test]
fn one_view_is_planned_per_image() {
    let images: Vec<u64> = vec![11, 22, 33];
    let views = plan_image_views(&images, 50);
    assert_eq!(views.len(), 3);
    for i in 0..3 {
        assert_eq!(views[i].image, images[i]);
        assert_eq!(views[i].format, 50);
        assert_eq!(views[i].view_type, ash::vk::ImageViewType::TYPE_2D.as_raw());
        assert_eq!(views[i].swizzle_r, ash::vk::ComponentSwizzle::IDENTITY.as_raw());
        assert_eq!(views[i].swizzle_g, ash::vk::ComponentSwizzle::IDENTITY.as_raw());
        assert_eq!(views[i].swizzle_b, ash::vk::ComponentSwizzle::IDENTITY.as_raw());
        assert_eq!(views[i].swizzle_a, ash::vk::ComponentSwizzle::IDENTITY.as_raw());
        assert_eq!(views[i].aspect_mask, ash::vk::ImageAspectFlags::COLOR.as_raw());
        assert_eq!(views[i].base_mip_level, 0);
        assert_eq!(views[i].level_count, 1);
        assert_eq!(views[i].base_array_layer, 0);
        assert_eq!(views[i].layer_count, 1);
    }
    assert!(plan_image_views(&Vec::new(), 50).is_empty());
}

#[test]
fn a_swapchain_has_a_view_for_each_image() {
    let extent = Extent2D { width: 800, height: 600 };
    let bundle = SwapChain::new(1, vec![11, 22], vec![111, 222], 50, extent).unwrap();
    assert_eq!(bundle.images, vec![11, 22]);
    assert_eq!(bundle.image_views, vec![111, 222]);
    assert_eq!(bundle.swapchain, 1);
    assert_eq!(bundle.format, 50);
    assert_eq!(bundle.extent, extent);
    assert!(SwapChain::new(1, vec![11, 22], vec![111], 50, extent).is_none());
    assert!(SwapChain::new(1, vec![], vec![111], 50, extent).is_none());
    assert!(SwapChain::new(1, vec![], vec![], 50, extent).is_some());
}
