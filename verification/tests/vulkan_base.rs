use vulkan_raytracing::vulkan_base::{
    build_device_config, build_instance_config, check_validation_layer_support,
    find_queue_families, get_instance_extensions, make_api_version,
    pick_physical_device_and_queue_family_indices, DeviceExtension, InstanceExtension,
    PhysicalDeviceInfo, Platform, QueueFamilyIndices, QueueFamilyInfo, ValidationLayerConfig,
};

fn family(
    queue_count: u32,
    supports_graphics: bool,
    supports_compute: bool,
    supports_present: bool,
) -> QueueFamilyInfo {
    QueueFamilyInfo { queue_count, supports_graphics, supports_compute, supports_present }
}

#[test]
fn validation_config_debug_requests_khronos_layer() {
    let config = ValidationLayerConfig::new(true);
    assert!(config.enabled);
    assert_eq!(config.layers, vec!["VK_LAYER_KHRONOS_validation".to_string()]);

    let config = ValidationLayerConfig::new(false);
    assert!(!config.enabled);
    assert!(config.layers.is_empty());
}

#[test]
fn validation_support_check() {
    let config = ValidationLayerConfig::new(true);
    let supported = vec![
        "VK_LAYER_MESA_overlay".to_string(),
        "VK_LAYER_KHRONOS_validation".to_string(),
    ];
    assert!(config.check_support(&supported));
    let unsupported = vec!["VK_LAYER_MESA_overlay".to_string()];
    assert!(!config.check_support(&unsupported));

    // Disabled validation is vacuously supported.
    let disabled = ValidationLayerConfig::new(false);
    assert!(disabled.check_support(&Vec::new()));
}

#[test]
fn layer_subset_check() {
    let supported = vec!["a".to_string(), "b".to_string()];
    let required = vec!["b".to_string()];
    assert!(check_validation_layer_support(&supported, &required));
    let required = vec!["b".to_string(), "c".to_string()];
    assert!(!check_validation_layer_support(&supported, &required));
    assert!(check_validation_layer_support(&supported, &Vec::new()));
}

#[test]
fn is_complete_combinations() {
    let none = QueueFamilyIndices {
        graphics_family: None,
        compute_family: None,
        present_family: None,
    };
    assert!(!none.is_complete(false, false));

    let graphics_only = QueueFamilyIndices {
        graphics_family: Some(0),
        compute_family: None,
        present_family: None,
    };
    assert!(graphics_only.is_complete(false, false));
    assert!(!graphics_only.is_complete(true, false));
    assert!(!graphics_only.is_complete(false, true));

    let full = QueueFamilyIndices {
        graphics_family: Some(0),
        compute_family: Some(1),
        present_family: Some(2),
    };
    assert!(full.is_complete(true, true));
}

#[test]
fn unique_families_deduplicates_equal_indices() {
    let all_equal = QueueFamilyIndices {
        graphics_family: Some(3),
        compute_family: Some(3),
        present_family: Some(3),
    };
    assert_eq!(all_equal.unique_families(), vec![3]);
}

#[test]
fn unique_families_keeps_distinct_indices_in_order() {
    let distinct = QueueFamilyIndices {
        graphics_family: Some(0),
        compute_family: Some(1),
        present_family: Some(2),
    };
    assert_eq!(distinct.unique_families(), vec![0, 1, 2]);
}

#[test]
fn unique_families_partially_unset() {
    let no_compute = QueueFamilyIndices {
        graphics_family: Some(0),
        compute_family: None,
        present_family: Some(0),
    };
    assert_eq!(no_compute.unique_families(), vec![0]);

    let compute_equals_present = QueueFamilyIndices {
        graphics_family: Some(1),
        compute_family: Some(2),
        present_family: Some(2),
    };
    assert_eq!(compute_equals_present.unique_families(), vec![1, 2]);

    let empty = QueueFamilyIndices {
        graphics_family: None,
        compute_family: None,
        present_family: None,
    };
    assert_eq!(empty.unique_families(), Vec::<u32>::new());
}

#[test]
fn find_queue_families_picks_first_match_per_category() {
    let families = vec![
        family(1, false, true, false),
        family(1, true, false, false),
        family(1, true, true, true),
    ];
    let indices = find_queue_families(&families, true, true);
    assert_eq!(indices.graphics_family, Some(1));
    assert_eq!(indices.compute_family, Some(0));
    assert_eq!(indices.present_family, Some(2));
}

#[test]
fn find_queue_families_skips_empty_families_for_graphics_and_compute() {
    // A family with zero queues cannot serve graphics or compute, but the
    // present scan does not consult the queue count.
    let families = vec![family(0, true, true, true), family(1, true, true, false)];
    let indices = find_queue_families(&families, true, true);
    assert_eq!(indices.graphics_family, Some(1));
    assert_eq!(indices.compute_family, Some(1));
    assert_eq!(indices.present_family, Some(0));
}

#[test]
fn find_queue_families_honors_requirement_flags() {
    let families = vec![family(1, true, true, true)];
    let indices = find_queue_families(&families, false, false);
    assert_eq!(indices.graphics_family, Some(0));
    assert_eq!(indices.compute_family, None);
    assert_eq!(indices.present_family, None);
}

#[test]
fn pick_physical_device_skips_device_missing_extension() {
    let required = vec!["VK_KHR_ray_tracing_pipeline".to_string()];
    let weak = PhysicalDeviceInfo {
        extensions: vec!["VK_KHR_swapchain".to_string()],
        queue_families: vec![family(1, true, true, true)],
    };
    let strong = PhysicalDeviceInfo {
        extensions: vec![
            "VK_KHR_swapchain".to_string(),
            "VK_KHR_ray_tracing_pipeline".to_string(),
        ],
        queue_families: vec![family(1, true, true, true)],
    };
    let devices = vec![weak, strong];
    let (index, indices) =
        pick_physical_device_and_queue_family_indices(&devices, &required, true, true).unwrap();
    assert_eq!(index, 1);
    assert_eq!(indices.graphics_family, Some(0));
    assert_eq!(indices.compute_family, Some(0));
    assert_eq!(indices.present_family, Some(0));
}

#[test]
fn pick_physical_device_requires_complete_queue_set() {
    let required: Vec<String> = Vec::new();
    // Offers extensions but no compute-capable family.
    let device = PhysicalDeviceInfo {
        extensions: Vec::new(),
        queue_families: vec![family(1, true, false, true)],
    };
    let devices = vec![device];
    assert!(
        pick_physical_device_and_queue_family_indices(&devices, &required, true, true).is_none()
    );
    // Without the compute requirement the same device qualifies.
    let (index, _) =
        pick_physical_device_and_queue_family_indices(&devices, &required, false, true).unwrap();
    assert_eq!(index, 0);
}

#[test]
fn pick_physical_device_none_when_list_is_empty() {
    let devices: Vec<PhysicalDeviceInfo> = Vec::new();
    let required: Vec<String> = Vec::new();
    assert!(
        pick_physical_device_and_queue_family_indices(&devices, &required, false, false).is_none()
    );
}

#[test]
fn api_version_packing() {
    assert_eq!(make_api_version(0, 1, 0, 0), 1 << 22);
    assert_eq!(make_api_version(0, 1, 3, 0), (1 << 22) | (3 << 12));
    assert_eq!(make_api_version(0, 1, 3, 0), 4_206_592);
    assert_eq!(
        make_api_version(1, 2, 3, 4),
        0x2000_0000 + 2 * 0x40_0000 + 3 * 0x1000 + 4
    );
}

#[test]
fn instance_extensions_headless_and_per_platform() {
    assert_eq!(
        get_instance_extensions(true, Platform::Linux),
        vec![InstanceExtension::DebugUtils]
    );
    assert_eq!(
        get_instance_extensions(false, Platform::Windows),
        vec![
            InstanceExtension::DebugUtils,
            InstanceExtension::Surface,
            InstanceExtension::Win32Surface,
        ]
    );
    assert_eq!(
        get_instance_extensions(false, Platform::Linux),
        vec![
            InstanceExtension::DebugUtils,
            InstanceExtension::Surface,
            InstanceExtension::XlibSurface,
            InstanceExtension::WaylandSurface,
        ]
    );
    assert_eq!(
        get_instance_extensions(false, Platform::MacOs),
        vec![
            InstanceExtension::DebugUtils,
            InstanceExtension::Surface,
            InstanceExtension::MacosSurface,
        ]
    );
    assert_eq!(
        get_instance_extensions(false, Platform::Other),
        vec![InstanceExtension::DebugUtils, InstanceExtension::Surface]
    );
}

#[test]
fn instance_config_carries_versions_layers_and_messenger() {
    let validation = ValidationLayerConfig::new(true);
    let config = build_instance_config(&validation, true, Platform::Linux);
    assert_eq!(config.application_version, make_api_version(0, 1, 0, 0));
    assert_eq!(config.api_version, make_api_version(0, 1, 3, 0));
    assert_eq!(config.layers, validation.layers);
    assert_eq!(config.extensions, vec![InstanceExtension::DebugUtils]);
    assert!(config.with_debug_messenger);

    let validation = ValidationLayerConfig::new(false);
    let config = build_instance_config(&validation, false, Platform::Other);
    assert!(config.layers.is_empty());
    assert!(!config.with_debug_messenger);
}

#[test]
fn device_config_features_extensions_and_queues() {
    let indices = QueueFamilyIndices {
        graphics_family: Some(0),
        compute_family: Some(0),
        present_family: Some(1),
    };
    let config = build_device_config(&indices, false);
    assert_eq!(config.queue_family_indices, vec![0, 1]);
    assert_eq!(config.queues_per_family, 1);
    assert!(config.features.buffer_device_address);
    assert!(config.features.scalar_block_layout);
    assert!(config.features.acceleration_structure);
    assert!(config.features.ray_tracing_pipeline);
    assert_eq!(
        config.extensions,
        vec![
            DeviceExtension::RayTracingPipeline,
            DeviceExtension::AccelerationStructure,
            DeviceExtension::DeferredHostOperations,
            DeviceExtension::Spirv14,
            DeviceExtension::ScalarBlockLayout,
            DeviceExtension::Swapchain,
        ]
    );

    let headless = build_device_config(&indices, true);
    assert!(!headless.extensions.contains(&DeviceExtension::Swapchain));
    assert_eq!(headless.extensions.len(), 5);
}
