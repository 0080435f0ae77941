use slsh_engine::error::SetupError;
use slsh_engine::instance::{
    any_has_nul, api_version, convert_to_strings, create_instance, has_nul, packed_version,
    required_validation_layers, API_VER_MAJOR, API_VER_MINOR, API_VER_PATCH,
};
use slsh_engine::vulkan::INSTANCE_ENUMERATE_PORTABILITY;

#[test]
fn a_version_is_packed_as_the_api_packs_it() {
    assert_eq!(packed_version(1, 0, 0), 1 << 22);
    assert_eq!(packed_version(1, 2, 3), (1 << 22) | (2 << 12) | 3);
    assert_eq!(packed_version(0, 0, 7), 7);
    assert_eq!(packed_version(1, 3, 251), ash::vk::make_api_version(0, 1, 3, 251));
    assert_eq!(packed_version(1, 3, 251), ash::vk::API_VERSION_1_3 | 251);
    assert_eq!(api_version(), 0x0040_0000);
    assert_eq!(api_version(), ash::vk::API_VERSION_1_0);
    assert_eq!((API_VER_MAJOR, API_VER_MINOR, API_VER_PATCH), (1, 0, 0));
}

#[test]
fn string_slices_are_copied_one_for_one() {
    assert_eq!(
        convert_to_strings(&["VK_KHR_swapchain", "", "b"]),
        vec!["VK_KHR_swapchain".to_string(), String::new(), "b".to_string()]
    );
    assert!(convert_to_strings(&[]).is_empty());
}

#[test]
fn four_validation_layers_are_enabled() {
    assert_eq!(
        required_validation_layers(),
        vec![
            "VK_LAYER_MESA_device_select".to_string(),
            "VK_LAYER_LUNARG_monitor".to_string(),
            "VK_LAYER_KHRONOS_synchronization2".to_string(),
            "VK_LAYER_KHRONOS_validation".to_string(),
        ]
    );
}

#[test]
fn a_zero_byte_in_a_name_is_found() {
    assert!(!has_nul("slsh"));
    assert!(!has_nul(""));
    assert!(has_nul("sl\0sh"));
    assert!(has_nul("\0"));
    assert!(!has_nul("gr\u{fc}n"));
    assert!(!any_has_nul(&vec!["a".to_string(), "b".to_string()]));
    assert!(any_has_nul(&vec!["a".to_string(), "b\0".to_string()]));
    assert!(!any_has_nul(&Vec::new()));
}

#[test]
fn the_instance_is_described_for_the_application() {
    let window = vec!["VK_KHR_surface".to_string(), "VK_KHR_xcb_surface".to_string()];
    let config = create_instance("slsh", (0, 1, 0), window.clone(), false).unwrap();
    assert_eq!(config.app_name, "slsh");
    assert_eq!(config.engine_name, "slsh_engine");
    assert_eq!(config.application_version, 0);
    assert_eq!(config.engine_version, 1 << 12);
    assert_eq!(config.api_version, ash::vk::API_VERSION_1_0);
    assert_eq!(config.layers, required_validation_layers());
    assert_eq!(config.extensions, window);
    assert_eq!(config.flags, 0);
}

#[test]
fn a_portability_platform_enables_two_more_extensions() {
    let window = vec!["VK_KHR_surface".to_string()];
    let config = create_instance("slsh", (1, 2, 3), window, true).unwrap();
    assert_eq!(
        config.extensions,
        vec![
            "VK_KHR_surface".to_string(),
            "VK_KHR_portability_enumeration".to_string(),
            "VK_KHR_get_physical_device_properties2".to_string(),
        ]
    );
    assert_eq!(config.flags, INSTANCE_ENUMERATE_PORTABILITY);
    assert_eq!(config.engine_version, ash::vk::make_api_version(0, 1, 2, 3));
}

#[test]
fn a_name_with_a_zero_byte_is_an_error() {
    assert_eq!(
        create_instance("sl\0sh", (0, 1, 0), Vec::new(), false).err(),
        Some(SetupError::InvalidName)
    );
    assert_eq!(
        create_instance("slsh", (0, 1, 0), vec!["VK\0".to_string()], true).err(),
        Some(SetupError::InvalidName)
    );
    assert_eq!(SetupError::InvalidName.message(), "Failed to convert to CString");
}
