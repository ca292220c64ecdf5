use scop::device::{
    check_device, create_logical_device, find_queue_families, pick_physical_device,
    DeviceExtensions, PhysicalDeviceInfo, QueueFamilyIndices, QueueFamilyProperties,
};
use scop::engine::negotiate_engine_setup;
use scop::framebuffer::create_framebuffers;
use scop::instance::{check_validation_layers, create_instance, required_extensions, SetupError};
use scop::pipeline::{create_graphics_pipeline, CullMode, FrontFace, PrimitiveTopology, ShaderStage};
use scop::render_pass::{create_render_pass, AttachmentLoadOp, AttachmentStoreOp, ImageLayout};
use scop::swapchain::{
    create_swap_chain, select_image_count, select_sharing_mode, select_swap_extent,
    select_swap_present_mode, select_swap_surface_format, ColorSpace, Extent, Format, PresentMode,
    SharingMode, SurfaceCapabilities, SwapChainSupport,
};

fn family(graphics: bool, present: bool) -> QueueFamilyProperties {
    QueueFamilyProperties { supports_graphics: graphics, supports_present: present }
}

fn plain_capabilities() -> SurfaceCapabilities {
    SurfaceCapabilities {
        min_image_count: 2,
        max_image_count: Some(4),
        current_extent: None,
        min_image_extent: Extent { width: 1, height: 1 },
        max_image_extent: Extent { width: 4096, height: 4096 },
    }
}

fn good_device() -> PhysicalDeviceInfo {
    PhysicalDeviceInfo {
        queue_families: vec![family(true, true)],
        supported_extensions: DeviceExtensions { khr_swapchain: true },
        swap_chain_support: SwapChainSupport {
            capabilities: plain_capabilities(),
            formats: vec![(Format::B8G8R8A8Srgb, ColorSpace::SrgbNonLinear)],
            present_modes: vec![PresentMode::Fifo],
        },
    }
}

#[test]
fn device_with_all_requirements_is_accepted() {
    assert!(check_device(&good_device()));
}

#[test]
fn device_without_graphics_family_is_rejected() {
    let mut device = good_device();
    device.queue_families = vec![family(false, true)];
    assert!(!check_device(&device));
}

#[test]
fn device_without_present_family_is_rejected() {
    let mut device = good_device();
    device.queue_families = vec![family(true, false)];
    assert!(!check_device(&device));
}

#[test]
fn device_without_swapchain_extension_is_rejected() {
    let mut device = good_device();
    device.supported_extensions = DeviceExtensions { khr_swapchain: false };
    assert!(!check_device(&device));
}

#[test]
fn device_without_formats_is_rejected() {
    let mut device = good_device();
    device.swap_chain_support.formats = vec![];
    assert!(!check_device(&device));
}

#[test]
fn device_without_present_modes_is_rejected() {
    let mut device = good_device();
    device.swap_chain_support.present_modes = vec![];
    assert!(!check_device(&device));
}

#[test]
fn first_qualifying_device_wins() {
    let mut bad = good_device();
    bad.supported_extensions = DeviceExtensions { khr_swapchain: false };
    let devices = vec![bad, good_device(), good_device()];
    assert_eq!(pick_physical_device(&devices), Some(1));
}

#[test]
fn no_qualifying_device_yields_none() {
    let mut bad = good_device();
    bad.queue_families = vec![family(false, false)];
    assert_eq!(pick_physical_device(&vec![bad]), None);
}

#[test]
fn queue_family_scan_resolves_both_roles() {
    let families = vec![family(true, false), family(false, true)];
    let indices = find_queue_families(&families);
    assert!(indices.is_complete());
    assert_eq!(indices.graphics_family, Some(0));
    assert_eq!(indices.present_family, Some(1));
}

#[test]
fn queue_family_scan_reports_missing_roles() {
    let families = vec![family(true, false)];
    let indices = find_queue_families(&families);
    assert!(!indices.is_complete());
    assert_eq!(indices.graphics_family, Some(0));
    assert_eq!(indices.present_family, None);
}

#[test]
fn shared_family_is_deduplicated_to_one_request() {
    let indices = QueueFamilyIndices { graphics_family: Some(3), present_family: Some(3) };
    let unique = indices.unique_indices().unwrap();
    assert_eq!(unique, vec![3]);
    let plan = create_logical_device(&indices);
    assert_eq!(plan.queue_create_family_indices, vec![3]);
    assert_eq!(plan.graphics_queue_slot, plan.present_queue_slot);
    assert!(plan.enabled_extensions.khr_swapchain);
}

#[test]
fn distinct_families_get_one_request_each() {
    let indices = QueueFamilyIndices { graphics_family: Some(0), present_family: Some(2) };
    let unique = indices.unique_indices().unwrap();
    assert_eq!(unique, vec![0, 2]);
    let plan = create_logical_device(&indices);
    assert_eq!(plan.queue_create_family_indices, vec![0, 2]);
    assert_eq!(plan.queue_create_family_indices[plan.graphics_queue_slot], 0);
    assert_eq!(plan.queue_create_family_indices[plan.present_queue_slot], 2);
    assert_ne!(plan.graphics_queue_slot, plan.present_queue_slot);
}

#[test]
fn incomplete_indices_have_no_unique_set() {
    let indices = QueueFamilyIndices::new();
    assert!(!indices.is_complete());
    assert!(indices.unique_indices().is_none());
}

#[test]
fn preferred_format_pair_is_chosen_when_present() {
    let formats = vec![
        (Format::Other(44), ColorSpace::SrgbNonLinear),
        (Format::B8G8R8A8Srgb, ColorSpace::Other(7)),
        (Format::B8G8R8A8Srgb, ColorSpace::SrgbNonLinear),
    ];
    let chosen = select_swap_surface_format(&formats);
    assert_eq!(chosen, (Format::B8G8R8A8Srgb, ColorSpace::SrgbNonLinear));
}

#[test]
fn first_format_pair_is_chosen_without_preferred() {
    let formats = vec![
        (Format::Other(44), ColorSpace::SrgbNonLinear),
        (Format::B8G8R8A8Srgb, ColorSpace::Other(7)),
    ];
    let chosen = select_swap_surface_format(&formats);
    assert_eq!(chosen, (Format::Other(44), ColorSpace::SrgbNonLinear));
}

#[test]
fn mailbox_mode_is_chosen_when_present() {
    let modes = vec![PresentMode::Fifo, PresentMode::Mailbox];
    assert_eq!(select_swap_present_mode(&modes), PresentMode::Mailbox);
}

#[test]
fn fifo_mode_is_the_fallback() {
    let modes = vec![PresentMode::Fifo, PresentMode::Other(9)];
    assert_eq!(select_swap_present_mode(&modes), PresentMode::Fifo);
    assert_eq!(select_swap_present_mode(&vec![]), PresentMode::Fifo);
}

#[test]
fn definite_current_extent_is_used_verbatim() {
    let mut capabilities = plain_capabilities();
    capabilities.current_extent = Some(Extent { width: 123, height: 456 });
    let extent = select_swap_extent(&capabilities, Extent { width: 800, height: 600 });
    assert_eq!(extent, Extent { width: 123, height: 456 });
}

#[test]
fn requested_extent_is_clamped_to_narrow_bounds() {
    let mut capabilities = plain_capabilities();
    capabilities.min_image_extent = Extent { width: 200, height: 200 };
    capabilities.max_image_extent = Extent { width: 400, height: 300 };
    let extent = select_swap_extent(&capabilities, Extent { width: 800, height: 600 });
    assert_eq!(extent, Extent { width: 400, height: 300 });
}

#[test]
fn requested_extent_is_raised_to_minimum_bounds() {
    let mut capabilities = plain_capabilities();
    capabilities.min_image_extent = Extent { width: 640, height: 480 };
    capabilities.max_image_extent = Extent { width: 4096, height: 4096 };
    let extent = select_swap_extent(&capabilities, Extent { width: 100, height: 600 });
    assert_eq!(extent, Extent { width: 640, height: 600 });
}

#[test]
fn image_count_is_clamped_down_to_the_maximum() {
    let mut capabilities = plain_capabilities();
    capabilities.min_image_count = 1;
    capabilities.max_image_count = Some(1);
    assert_eq!(select_image_count(&capabilities), 1);
}

#[test]
fn image_count_is_floored_at_the_minimum_without_maximum() {
    let mut capabilities = plain_capabilities();
    capabilities.min_image_count = 3;
    capabilities.max_image_count = None;
    assert_eq!(select_image_count(&capabilities), 3);
}

#[test]
fn image_count_targets_a_double_buffer() {
    let mut capabilities = plain_capabilities();
    capabilities.min_image_count = 1;
    capabilities.max_image_count = Some(3);
    assert_eq!(select_image_count(&capabilities), 2);
    capabilities.max_image_count = None;
    assert_eq!(select_image_count(&capabilities), 2);
}

#[test]
fn shared_family_keeps_exclusive_images() {
    let indices = QueueFamilyIndices { graphics_family: Some(1), present_family: Some(1) };
    assert_eq!(select_sharing_mode(&indices), SharingMode::Exclusive);
}

#[test]
fn distinct_families_share_images_concurrently() {
    let indices = QueueFamilyIndices { graphics_family: Some(0), present_family: Some(2) };
    assert_eq!(select_sharing_mode(&indices), SharingMode::Concurrent(0, 2));
}

#[test]
fn swap_chain_negotiation_combines_the_selections() {
    let support = SwapChainSupport {
        capabilities: plain_capabilities(),
        formats: vec![
            (Format::Other(3), ColorSpace::Other(4)),
            (Format::B8G8R8A8Srgb, ColorSpace::SrgbNonLinear),
        ],
        present_modes: vec![PresentMode::Fifo, PresentMode::Mailbox],
    };
    let indices = QueueFamilyIndices { graphics_family: Some(0), present_family: Some(0) };
    let result = create_swap_chain(&support, &indices, Extent { width: 800, height: 600 });
    assert_eq!(result.min_image_count, 2);
    assert_eq!(result.format, Format::B8G8R8A8Srgb);
    assert_eq!(result.color_space, ColorSpace::SrgbNonLinear);
    assert_eq!(result.present_mode, PresentMode::Mailbox);
    assert_eq!(result.extent, Extent { width: 800, height: 600 });
    assert_eq!(result.sharing, SharingMode::Exclusive);
}

#[test]
fn render_pass_declares_one_presentable_color_attachment() {
    let pass = create_render_pass(Format::B8G8R8A8Srgb);
    assert_eq!(pass.attachments.len(), 1);
    let attachment = pass.attachments[0];
    assert_eq!(attachment.format, Format::B8G8R8A8Srgb);
    assert_eq!(attachment.load_op, AttachmentLoadOp::Clear);
    assert_eq!(attachment.store_op, AttachmentStoreOp::Store);
    assert_eq!(attachment.final_layout, ImageLayout::PresentSrc);
    assert_eq!(pass.subpasses.len(), 1);
    assert_eq!(pass.subpasses[0].color_attachments.len(), 1);
    assert_eq!(pass.subpasses[0].color_attachments[0].attachment, 0);
    assert_eq!(pass.subpasses[0].color_attachments[0].layout, ImageLayout::ColorAttachmentOptimal);
}

#[test]
fn pipeline_is_fixed_function_with_dynamic_viewport() {
    let extent = Extent { width: 800, height: 600 };
    let config = create_graphics_pipeline(extent);
    assert_eq!(config.stages.len(), 2);
    assert_eq!(config.stages[0].stage, ShaderStage::Vertex);
    assert_eq!(config.stages[0].entry_point, "main");
    assert_eq!(config.stages[1].stage, ShaderStage::Fragment);
    assert_eq!(config.stages[1].entry_point, "main");
    assert_eq!(config.vertex_input.binding_count, 0);
    assert_eq!(config.vertex_input.attribute_count, 0);
    assert_eq!(config.input_assembly, PrimitiveTopology::TriangleList);
    assert_eq!(config.viewport_extent, extent);
    assert_eq!(config.scissor_extent, extent);
    assert!(config.dynamic_viewport);
    assert!(config.dynamic_scissor);
    assert_eq!(config.rasterization.cull_mode, CullMode::Back);
    assert_eq!(config.rasterization.front_face, FrontFace::Clockwise);
    assert_eq!(config.sample_count, 1);
    assert_eq!(config.color_blend_attachments.len(), 1);
    assert!(!config.color_blend_attachments[0].blend_enabled);
}

#[test]
fn one_framebuffer_per_swapchain_image_in_order() {
    let extent = Extent { width: 320, height: 240 };
    let framebuffers = create_framebuffers(3, extent);
    assert_eq!(framebuffers.len(), 3);
    for (i, framebuffer) in framebuffers.iter().enumerate() {
        assert_eq!(framebuffer.image_index, i);
        assert_eq!(framebuffer.extent, extent);
        assert_eq!(framebuffer.layers, 1);
    }
}

#[test]
fn validation_layer_check_matches_the_reported_layers() {
    let available = vec![
        String::from("VK_LAYER_MESA_overlay"),
        String::from("VK_LAYER_KHRONOS_validation"),
    ];
    assert!(check_validation_layers(&available));
    assert!(!check_validation_layers(&vec![String::from("VK_LAYER_MESA_overlay")]));
    assert!(!check_validation_layers(&vec![]));
}

#[test]
fn diagnostics_add_the_debug_extension() {
    let base = vec![String::from("VK_KHR_surface"), String::from("VK_KHR_xcb_surface")];
    let with_debug = required_extensions(base.clone(), true);
    assert_eq!(
        with_debug,
        vec![
            String::from("VK_KHR_surface"),
            String::from("VK_KHR_xcb_surface"),
            String::from("VK_EXT_debug_utils"),
        ]
    );
    let without_debug = required_extensions(base.clone(), false);
    assert_eq!(without_debug, base);
}

#[test]
fn instance_requires_the_validation_layer_when_diagnostics_are_on() {
    let result = create_instance(true, &vec![], vec![String::from("VK_KHR_surface")]);
    assert_eq!(result.unwrap_err(), SetupError::ValidationLayersUnavailable);
}

#[test]
fn instance_config_carries_identity_layers_and_extensions() {
    let layers = vec![String::from("VK_LAYER_KHRONOS_validation")];
    let config = create_instance(true, &layers, vec![String::from("VK_KHR_surface")]).unwrap();
    assert_eq!(config.application_name, "Scop");
    assert_eq!(config.engine_name, "No Engine");
    assert_eq!(config.application_version.major, 1);
    assert_eq!(config.enabled_layers, vec![String::from("VK_LAYER_KHRONOS_validation")]);
    assert_eq!(
        config.enabled_extensions,
        vec![String::from("VK_KHR_surface"), String::from("VK_EXT_debug_utils")]
    );
    assert!(config.enable_debug_messenger);

    let quiet = create_instance(false, &vec![], vec![String::from("VK_KHR_surface")]).unwrap();
    assert!(quiet.enabled_layers.is_empty());
    assert_eq!(quiet.enabled_extensions, vec![String::from("VK_KHR_surface")]);
    assert!(!quiet.enable_debug_messenger);
}

#[test]
fn end_to_end_negotiation_on_a_synthetic_device() {
    let device = PhysicalDeviceInfo {
        queue_families: vec![family(true, true)],
        supported_extensions: DeviceExtensions { khr_swapchain: true },
        swap_chain_support: SwapChainSupport {
            capabilities: SurfaceCapabilities {
                min_image_count: 2,
                max_image_count: Some(4),
                current_extent: None,
                min_image_extent: Extent { width: 100, height: 100 },
                max_image_extent: Extent { width: 4000, height: 4000 },
            },
            formats: vec![(Format::B8G8R8A8Srgb, ColorSpace::SrgbNonLinear)],
            present_modes: vec![PresentMode::Fifo],
        },
    };
    let devices = vec![device];
    let plan = negotiate_engine_setup(
        false,
        &vec![],
        vec![],
        &devices,
        Extent { width: 800, height: 600 },
    )
    .unwrap();
    assert_eq!(plan.device_index, 0);
    assert_eq!(plan.queue_family_indices.graphics_family, Some(0));
    assert_eq!(plan.queue_family_indices.present_family, Some(0));
    assert_eq!(plan.logical_device.queue_create_family_indices, vec![0]);
    assert_eq!(plan.swap_chain.min_image_count, 2);
    assert_eq!(plan.swap_chain.format, Format::B8G8R8A8Srgb);
    assert_eq!(plan.swap_chain.color_space, ColorSpace::SrgbNonLinear);
    assert_eq!(plan.swap_chain.present_mode, PresentMode::Fifo);
    assert_eq!(plan.swap_chain.extent, Extent { width: 800, height: 600 });
    assert_eq!(plan.swap_chain.sharing, SharingMode::Exclusive);
    assert_eq!(plan.framebuffers.len(), 2);
    assert_eq!(plan.render_pass.attachments[0].format, Format::B8G8R8A8Srgb);
    assert_eq!(plan.graphics_pipeline.viewport_extent, Extent { width: 800, height: 600 });
}

#[test]
fn end_to_end_negotiation_with_distinct_queue_families() {
    let mut device = good_device();
    device.queue_families = vec![family(true, false), family(false, true)];
    let devices = vec![device];
    let plan = negotiate_engine_setup(
        false,
        &vec![],
        vec![],
        &devices,
        Extent { width: 640, height: 480 },
    )
    .unwrap();
    assert_eq!(plan.queue_family_indices.graphics_family, Some(0));
    assert_eq!(plan.queue_family_indices.present_family, Some(1));
    assert_eq!(plan.logical_device.queue_create_family_indices, vec![0, 1]);
    assert_eq!(plan.logical_device.graphics_queue_slot, 0);
    assert_eq!(plan.logical_device.present_queue_slot, 1);
    assert_eq!(plan.swap_chain.sharing, SharingMode::Concurrent(0, 1));
}

#[test]
fn negotiation_fails_without_the_validation_layer() {
    let result = negotiate_engine_setup(
        true,
        &vec![String::from("VK_LAYER_MESA_overlay")],
        vec![],
        &vec![good_device()],
        Extent { width: 800, height: 600 },
    );
    assert_eq!(result.unwrap_err(), SetupError::ValidationLayersUnavailable);
}

#[test]
fn negotiation_fails_without_a_qualifying_device() {
    let mut bad = good_device();
    bad.supported_extensions = DeviceExtensions { khr_swapchain: false };
    let result = negotiate_engine_setup(
        false,
        &vec![],
        vec![],
        &vec![bad],
        Extent { width: 800, height: 600 },
    );
    assert_eq!(result.unwrap_err(), SetupError::NoQualifyingDevice);
}
