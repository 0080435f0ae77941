use slsh_engine::device::{
    all_devices_wf, create_logical_device, device_type_to_priority, gather_phys_device_infos,
    get_queue_family_indices, has_extension, is_suitable, pick_phys_device,
    required_device_extensions, supports_extensions, supports_required_extensions,
    unique_families, PhysDevice, PhysDeviceInfo, QueueFamily, QueueFamilyIndices,
    QUEUE_PRIORITY_ONE_BITS,
};
use slsh_engine::error::SetupError;
use slsh_engine::vulkan::{
    DEVICE_TYPE_CPU, DEVICE_TYPE_DISCRETE_GPU, DEVICE_TYPE_INTEGRATED_GPU, DEVICE_TYPE_OTHER,
    DEVICE_TYPE_VIRTUAL_GPU, QUEUE_COMPUTE, QUEUE_GRAPHICS, QUEUE_TRANSFER,
};

fn family(flags: u32, present_support: bool) -> QueueFamily {
    QueueFamily { flags, present_support }
}

fn device(handle: u64, device_type: i32, extensions: &[&str]) -> PhysDevice {
    PhysDevice {
        handle,
        device_type,
        queue_families: vec![family(QUEUE_GRAPHICS | QUEUE_COMPUTE, true)],
        extensions: extensions.iter().map(|name| name.to_string()).collect(),
    }
}

fn required() -> Vec<String> {
    required_device_extensions(false)
}

#[test]
fn device_types_rank_discrete_first() {
    assert_eq!(device_type_to_priority(DEVICE_TYPE_DISCRETE_GPU), 1);
    assert_eq!(device_type_to_priority(DEVICE_TYPE_INTEGRATED_GPU), 2);
    assert_eq!(device_type_to_priority(DEVICE_TYPE_VIRTUAL_GPU), 3);
    assert_eq!(device_type_to_priority(DEVICE_TYPE_CPU), 4);
    assert_eq!(device_type_to_priority(DEVICE_TYPE_OTHER), 5);
    assert_eq!(device_type_to_priority(77), 5);
    assert_eq!(device_type_to_priority(-1), 5);
}

#[test]
fn one_family_serves_graphics_and_present_where_one_offers_both() {
    let families = vec![
        family(QUEUE_GRAPHICS | QUEUE_COMPUTE | QUEUE_TRANSFER, true),
        family(QUEUE_COMPUTE, false),
        family(QUEUE_TRANSFER, true),
    ];
    let indices = get_queue_family_indices(&families);
    assert_eq!(indices.graphics, Some(0));
    assert_eq!(indices.present, Some(0));
    assert_eq!(indices.compute, Some(1));
    assert_eq!(indices.transfer, Some(2));
    assert!(indices.can_render());
}

#[test]
fn a_later_family_with_graphics_only_does_not_split_the_queues() {
    let families = vec![family(QUEUE_GRAPHICS, true), family(QUEUE_GRAPHICS, false)];
    let indices = get_queue_family_indices(&families);
    assert_eq!(indices.graphics, Some(0));
    assert_eq!(indices.present, Some(0));
    let families = vec![family(QUEUE_GRAPHICS, true), family(0, true)];
    let indices = get_queue_family_indices(&families);
    assert_eq!((indices.graphics, indices.present), (Some(0), Some(0)));
}

#[test]
fn the_last_family_that_offers_both_is_taken() {
    let families = vec![
        family(QUEUE_GRAPHICS, true),
        family(QUEUE_GRAPHICS | QUEUE_COMPUTE, true),
        family(QUEUE_GRAPHICS, false),
        family(QUEUE_TRANSFER, true),
    ];
    let indices = get_queue_family_indices(&families);
    assert_eq!((indices.graphics, indices.present), (Some(1), Some(1)));
    assert_eq!(indices.compute, Some(1));
    assert_eq!(indices.transfer, Some(3));
}

#[test]
fn two_families_are_taken_only_where_none_offers_both() {
    let families = vec![
        family(QUEUE_GRAPHICS, false),
        family(QUEUE_COMPUTE, true),
        family(QUEUE_GRAPHICS | QUEUE_TRANSFER, false),
        family(0, true),
    ];
    let indices = get_queue_family_indices(&families);
    assert_eq!(indices.graphics, Some(2));
    assert_eq!(indices.present, Some(3));
    assert_eq!(indices.compute, Some(1));
    assert_eq!(indices.transfer, Some(2));
    assert!(indices.can_render());
}

#[test]
fn queue_families_of_an_empty_table_are_none() {
    let indices = get_queue_family_indices(&Vec::new());
    assert_eq!(indices.graphics, None);
    assert_eq!(indices.compute, None);
    assert_eq!(indices.transfer, None);
    assert_eq!(indices.present, None);
    assert!(!indices.can_render());
    let default = QueueFamilyIndices::default();
    assert_eq!(default.graphics, None);
    assert_eq!(default.present, None);
}

#[test]
fn a_family_with_other_bits_only_offers_no_graphics() {
    // A contains test that handed its argument back would take any set bit
    // for the graphics bit.
    let indices = get_queue_family_indices(&vec![family(QUEUE_COMPUTE | QUEUE_TRANSFER, false)]);
    assert_eq!(indices.graphics, None);
    assert_eq!(indices.compute, Some(0));
    assert_eq!(indices.transfer, Some(0));
}

#[test]
fn graphics_and_present_may_be_different_families() {
    let families = vec![family(QUEUE_GRAPHICS, false), family(0, true)];
    let indices = get_queue_family_indices(&families);
    assert_eq!(indices.graphics, Some(0));
    assert_eq!(indices.present, Some(1));
    assert!(indices.can_render());
}

#[test]
fn required_extensions_are_the_swapchain_and_the_portability_subset() {
    assert_eq!(required_device_extensions(false), vec!["VK_KHR_swapchain".to_string()]);
    assert_eq!(
        required_device_extensions(true),
        vec!["VK_KHR_swapchain".to_string(), "VK_KHR_portability_subset".to_string()]
    );
}

#[test]
fn extension_support_needs_every_required_name() {
    let exts = vec!["VK_KHR_maintenance1".to_string(), "VK_KHR_swapchain".to_string()];
    assert!(has_extension(&exts, &"VK_KHR_swapchain".to_string()));
    assert!(!has_extension(&exts, &"VK_KHR_swapchai".to_string()));
    assert!(supports_required_extensions(&exts));
    assert!(supports_extensions(&required_device_extensions(false), &exts));
    assert!(!supports_extensions(&required_device_extensions(true), &exts));
    assert!(!supports_required_extensions(&vec!["VK_KHR_maintenance1".to_string()]));
    assert!(!supports_required_extensions(&Vec::new()));
    assert!(supports_extensions(&Vec::new(), &Vec::new()));
}

#[test]
fn a_device_without_the_required_extension_is_never_selected() {
    let devices = vec![
        device(1, DEVICE_TYPE_DISCRETE_GPU, &["VK_KHR_maintenance1"]),
        device(2, DEVICE_TYPE_CPU, &["VK_KHR_swapchain"]),
    ];
    assert!(!is_suitable(&devices[0], &required()));
    assert!(is_suitable(&devices[1], &required()));
    let picked = pick_phys_device(&devices, &required()).unwrap();
    assert_eq!(picked.phys_device, 2);
    assert_eq!(picked.device_type, DEVICE_TYPE_CPU);
}

#[test]
fn a_device_without_a_present_family_is_never_selected() {
    let mut first = device(1, DEVICE_TYPE_DISCRETE_GPU, &["VK_KHR_swapchain"]);
    first.queue_families = vec![family(QUEUE_GRAPHICS, false)];
    let devices = vec![first, device(2, DEVICE_TYPE_INTEGRATED_GPU, &["VK_KHR_swapchain"])];
    let picked = pick_phys_device(&devices, &required()).unwrap();
    assert_eq!(picked.phys_device, 2);
}

#[test]
fn the_first_enumerated_device_wins_a_tie() {
    let devices = vec![
        device(1, DEVICE_TYPE_INTEGRATED_GPU, &["VK_KHR_swapchain"]),
        device(2, DEVICE_TYPE_DISCRETE_GPU, &["VK_KHR_swapchain"]),
        device(3, DEVICE_TYPE_DISCRETE_GPU, &["VK_KHR_swapchain"]),
        device(4, DEVICE_TYPE_DISCRETE_GPU, &[]),
    ];
    let picked = pick_phys_device(&devices, &required()).unwrap();
    assert_eq!(picked.phys_device, 2);
    let others = vec![
        device(7, 90, &["VK_KHR_swapchain"]),
        device(8, DEVICE_TYPE_OTHER, &["VK_KHR_swapchain"]),
    ];
    assert_eq!(pick_phys_device(&others, &required()).unwrap().phys_device, 7);
}

#[test]
fn discrete_is_selected_among_integrated_discrete_virtual() {
    let devices = vec![
        device(10, DEVICE_TYPE_INTEGRATED_GPU, &["VK_KHR_swapchain"]),
        device(20, DEVICE_TYPE_DISCRETE_GPU, &["VK_KHR_swapchain"]),
        device(30, DEVICE_TYPE_VIRTUAL_GPU, &["VK_KHR_swapchain"]),
    ];
    let picked = pick_phys_device(&devices, &required()).unwrap();
    assert_eq!(picked.phys_device, 20);
    assert_eq!(picked.device_type, DEVICE_TYPE_DISCRETE_GPU);
    assert_eq!(picked.queue_family_indices.graphics, Some(0));
    assert_eq!(picked.queue_family_indices.present, Some(0));
}

#[test]
fn enumerated_devices_are_well_formed() {
    let devices = vec![device(1, DEVICE_TYPE_CPU, &[]), device(2, DEVICE_TYPE_OTHER, &[])];
    assert!(devices[0].is_wf());
    assert!(all_devices_wf(&devices));
    assert!(all_devices_wf(&Vec::new()));
}

#[test]
fn no_suitable_device_is_an_error() {
    assert_eq!(
        pick_phys_device(&Vec::new(), &required()).unwrap_err(),
        SetupError::NoSuitableDevice
    );
    let devices = vec![device(1, DEVICE_TYPE_DISCRETE_GPU, &[])];
    assert_eq!(
        pick_phys_device(&devices, &required()).unwrap_err(),
        SetupError::NoSuitableDevice
    );
    assert_eq!(SetupError::NoSuitableDevice.message(), "No suitable devices found");
}

#[test]
fn gathering_keeps_the_suitable_devices_in_order() {
    let devices = vec![
        device(1, DEVICE_TYPE_CPU, &["VK_KHR_swapchain"]),
        device(2, DEVICE_TYPE_DISCRETE_GPU, &[]),
        device(3, DEVICE_TYPE_VIRTUAL_GPU, &["VK_KHR_swapchain", "VK_EXT_debug_marker"]),
    ];
    let infos = gather_phys_device_infos(&devices, &required());
    let handles: Vec<u64> = infos.iter().map(|info| info.phys_device).collect();
    assert_eq!(handles, vec![1, 3]);
    assert_eq!(infos[1].device_type, DEVICE_TYPE_VIRTUAL_GPU);
}

#[test]
fn the_logical_device_gets_one_queue_for_each_distinct_family() {
    assert_eq!(unique_families(3, 3), vec![3]);
    assert_eq!(unique_families(1, 4), vec![1, 4]);
    assert_eq!(unique_families(4, 1), vec![1, 4]);
    let info = PhysDeviceInfo {
        phys_device: 9,
        device_type: DEVICE_TYPE_DISCRETE_GPU,
        queue_family_indices: QueueFamilyIndices {
            graphics: Some(2),
            compute: None,
            transfer: None,
            present: Some(0),
        },
    };
    let config = create_logical_device(&info, false);
    assert_eq!(config.phys_device, 9);
    assert_eq!(config.queues.len(), 2);
    assert_eq!(config.queues[0].queue_family_index, 0);
    assert_eq!(config.queues[1].queue_family_index, 2);
    assert_eq!(config.queues[0].queue_count, 1);
    assert_eq!(f32::from_bits(config.queues[0].priority_bits), 1.0);
    assert_eq!(QUEUE_PRIORITY_ONE_BITS, 1.0f32.to_bits());
    assert_eq!(config.extensions, vec!["VK_KHR_swapchain".to_string()]);
    assert_eq!(config.layers.len(), 4);
    assert!(config.shader_clip_distance);
    let same = PhysDeviceInfo {
        phys_device: 9,
        device_type: DEVICE_TYPE_DISCRETE_GPU,
        queue_family_indices: QueueFamilyIndices {
            graphics: Some(1),
            compute: None,
            transfer: None,
            present: Some(1),
        },
    };
    assert_eq!(create_logical_device(&same, true).queues.len(), 1);
    assert_eq!(create_logical_device(&same, true).extensions.len(), 2);
}
