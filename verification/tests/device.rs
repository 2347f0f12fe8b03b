use vk_renderer::device::{
    check_device_extensions, contains_name, device_extensions, get_queue_families,
    pick_physical_device, plan_logical_device, rank_device, DeviceInfo, QueueFamilies,
    QueueFamilyInfo, QueueRequest, QueueSlot,
};
use vk_renderer::error::RendererError;
use vk_renderer::swapchain::{
    choose_sharing_mode, Extent2D, ImageSharing, SurfaceCapabilities, SurfaceFormat,
    SwapChainSupport,
};

const GRAPHICS: u32 = 0x1;
const COMPUTE: u32 = 0x2;
const TRANSFER: u32 = 0x4;
const DISCRETE: i32 = 2;
const INTEGRATED: i32 = 1;

fn family(queue_flags: u32, present_support: bool) -> QueueFamilyInfo {
    QueueFamilyInfo { queue_flags, present_support }
}

fn support() -> SwapChainSupport {
    SwapChainSupport {
        capabilities: SurfaceCapabilities {
            min_image_count: 2,
            max_image_count: 0,
            current_extent: Extent2D { width: 800, height: 600 },
            min_image_extent: Extent2D { width: 1, height: 1 },
            max_image_extent: Extent2D { width: 4096, height: 4096 },
            current_transform: 1,
        },
        formats: vec![SurfaceFormat { format: 50, color_space: 0 }],
        present_modes: vec![2],
    }
}

fn device(handle: u64, device_type: i32, max_image_dimension_2d: u32) -> DeviceInfo {
    DeviceInfo {
        device: handle,
        device_type,
        max_image_dimension_2d,
        geometry_shader: 1,
        queue_families: vec![family(GRAPHICS | COMPUTE, true)],
        extensions: vec!["VK_KHR_maintenance1".to_string(), "VK_KHR_swapchain".to_string()],
        swapchain_support: support(),
    }
}

#[test]
fn queue_families_are_complete_with_both_roles() {
    assert!(QueueFamilies { graphics_family: Some(0), present_family: Some(3) }.is_complete());
    assert!(!QueueFamilies { graphics_family: None, present_family: Some(3) }.is_complete());
    assert!(!QueueFamilies { graphics_family: Some(0), present_family: None }.is_complete());
    assert!(!QueueFamilies { graphics_family: None, present_family: None }.is_complete());
}

#[test]
fn roles_resolve_to_their_first_families() {
    let families = vec![
        family(COMPUTE, true),
        family(TRANSFER, false),
        family(GRAPHICS | COMPUTE, true),
        family(GRAPHICS, true),
    ];
    let resolved = get_queue_families(&families);
    assert_eq!(resolved, QueueFamilies { graphics_family: Some(2), present_family: Some(0) });
    assert_eq!(
        choose_sharing_mode(&resolved),
        ImageSharing::Concurrent { graphics: 2, present: 0 }
    );
}

#[test]
fn earlier_graphics_family_is_kept() {
    let families = vec![family(GRAPHICS, false), family(GRAPHICS, false), family(COMPUTE, true)];
    assert_eq!(
        get_queue_families(&families),
        QueueFamilies { graphics_family: Some(0), present_family: Some(2) }
    );
}

#[test]
fn one_family_can_fill_both_roles() {
    let families = vec![family(TRANSFER, false), family(GRAPHICS | TRANSFER, true)];
    assert_eq!(
        get_queue_families(&families),
        QueueFamilies { graphics_family: Some(1), present_family: Some(1) }
    );
}

#[test]
fn missing_roles_stay_unresolved() {
    assert_eq!(
        get_queue_families(&vec![family(COMPUTE, true)]),
        QueueFamilies { graphics_family: None, present_family: Some(0) }
    );
    assert_eq!(
        get_queue_families(&vec![family(GRAPHICS, false)]),
        QueueFamilies { graphics_family: Some(0), present_family: None }
    );
    assert_eq!(
        get_queue_families(&Vec::new()),
        QueueFamilies { graphics_family: None, present_family: None }
    );
}

#[test]
fn graphics_bit_is_read_as_the_bindings_define_it() {
    let bit = ash::vk::QueueFlags::GRAPHICS.as_raw();
    assert_eq!(get_queue_families(&vec![family(bit, false)]).graphics_family, Some(0));
    assert_eq!(get_queue_families(&vec![family(!bit, false)]).graphics_family, None);
    assert_eq!(get_queue_families(&vec![family(0, false)]).graphics_family, None);
}

#[test]
fn swapchain_extension_is_required() {
    let required = device_extensions();
    assert_eq!(required, vec!["VK_KHR_swapchain".to_string()]);
    assert_eq!(required[0], ash::vk::KHR_SWAPCHAIN_NAME.to_str().unwrap());
    assert!(check_device_extensions(&vec!["A".to_string(), "VK_KHR_swapchain".to_string()]));
    assert!(!check_device_extensions(&vec!["A".to_string(), "VK_KHR_swapchain2".to_string()]));
    assert!(!check_device_extensions(&Vec::new()));
}

#[test]
fn names_are_found_by_equality() {
    let list = vec!["a".to_string(), "bc".to_string()];
    assert!(contains_name(&list, &"bc".to_string()));
    assert!(!contains_name(&list, &"b".to_string()));
    assert!(!contains_name(&Vec::new(), &"a".to_string()));
}

#[test]
fn discrete_gpu_scores_a_thousand_more() {
    assert_eq!(rank_device(&device(1, DISCRETE, 16384)), 17384);
    assert_eq!(rank_device(&device(1, INTEGRATED, 16384)), 16384);
    assert_eq!(rank_device(&device(1, DISCRETE, 0)), 1000);
    assert_eq!(rank_device(&device(1, INTEGRATED, 0)), 0);
    assert_eq!(rank_device(&device(1, DISCRETE, u32::MAX)), 4294968295);
    assert_eq!(
        rank_device(&device(1, ash::vk::PhysicalDeviceType::DISCRETE_GPU.as_raw(), 1)),
        1001
    );
}

#[test]
fn discrete_outscores_integrated_below_its_margin() {
    let discrete = rank_device(&device(1, DISCRETE, 4096));
    assert!(discrete > rank_device(&device(2, INTEGRATED, 4096)));
    assert!(discrete > rank_device(&device(2, INTEGRATED, 5095)));
    assert_eq!(discrete, rank_device(&device(2, INTEGRATED, 5096)));
}

#[test]
fn ineligible_devices_score_zero() {
    let mut no_geometry = device(1, DISCRETE, 16384);
    no_geometry.geometry_shader = 0;
    assert_eq!(rank_device(&no_geometry), 0);

    let mut no_graphics = device(1, DISCRETE, 16384);
    no_graphics.queue_families = vec![family(COMPUTE, true)];
    assert_eq!(rank_device(&no_graphics), 0);

    let mut no_present = device(1, DISCRETE, 16384);
    no_present.queue_families = vec![family(GRAPHICS, false)];
    assert_eq!(rank_device(&no_present), 0);

    let mut no_extension = device(1, DISCRETE, 16384);
    no_extension.extensions = vec!["VK_KHR_maintenance1".to_string()];
    assert_eq!(rank_device(&no_extension), 0);

    let mut no_formats = device(1, DISCRETE, 16384);
    no_formats.swapchain_support.formats.clear();
    assert_eq!(rank_device(&no_formats), 0);

    let mut no_modes = device(1, DISCRETE, 16384);
    no_modes.swapchain_support.present_modes.clear();
    assert_eq!(rank_device(&no_modes), 0);
}

#[test]
fn highest_score_is_picked() {
    let devices =
        vec![device(1, INTEGRATED, 16384), device(2, DISCRETE, 16384), device(3, DISCRETE, 8192)];
    assert_eq!(pick_physical_device(&devices), Ok(1));
    let devices = vec![device(1, INTEGRATED, 32768), device(2, DISCRETE, 16384)];
    assert_eq!(pick_physical_device(&devices), Ok(0));
}

#[test]
fn first_of_equal_scores_is_picked() {
    let devices =
        vec![device(1, INTEGRATED, 100), device(2, DISCRETE, 4096), device(3, DISCRETE, 4096)];
    assert_eq!(pick_physical_device(&devices), Ok(1));
}

#[test]
fn ineligible_device_is_never_picked() {
    let mut strong = device(1, DISCRETE, 65536);
    strong.geometry_shader = 0;
    let devices = vec![strong, device(2, INTEGRATED, 1)];
    assert_eq!(pick_physical_device(&devices), Ok(1));
}

#[test]
fn no_suitable_device_is_an_error() {
    assert_eq!(pick_physical_device(&Vec::new()), Err(RendererError::NoSuitableDevice));
    let mut a = device(1, DISCRETE, 4096);
    a.extensions.clear();
    let mut b = device(2, INTEGRATED, 4096);
    b.geometry_shader = 0;
    assert_eq!(pick_physical_device(&vec![a, b]), Err(RendererError::NoSuitableDevice));
    assert_eq!(
        pick_physical_device(&vec![device(1, INTEGRATED, 0)]),
        Err(RendererError::NoSuitableDevice)
    );
}

#[test]
fn shared_family_gets_one_queue_request() {
    let plan =
        plan_logical_device(&QueueFamilies { graphics_family: Some(3), present_family: Some(3) });
    assert_eq!(
        plan.queue_requests,
        vec![QueueRequest { family_index: 3, queue_count: 1, priority: 1.0f32.to_bits() }]
    );
    assert_eq!(plan.extensions, vec!["VK_KHR_swapchain".to_string()]);
    assert_eq!(plan.graphics_queue, QueueSlot { family_index: 3, queue_index: 0 });
    assert_eq!(plan.present_queue, QueueSlot { family_index: 3, queue_index: 0 });
}

#[test]
fn two_families_get_a_queue_request_each() {
    let plan =
        plan_logical_device(&QueueFamilies { graphics_family: Some(2), present_family: Some(0) });
    assert_eq!(
        plan.queue_requests,
        vec![
            QueueRequest { family_index: 2, queue_count: 1, priority: 1.0f32.to_bits() },
            QueueRequest { family_index: 0, queue_count: 1, priority: 1.0f32.to_bits() },
        ]
    );
    assert_eq!(plan.graphics_queue, QueueSlot { family_index: 2, queue_index: 0 });
    assert_eq!(plan.present_queue, QueueSlot { family_index: 0, queue_index: 0 });
}

#[test]
fn device_info_is_well_formed_with_few_families() {
    assert!(device(1, DISCRETE, 4096).is_well_formed());
    let mut none = device(1, DISCRETE, 4096);
    none.queue_families.clear();
    assert!(none.is_well_formed());
}
