//! What the engine asks of the graphics API when it creates its instance.

use vstd::prelude::*;
use vstd::string::StringSliceAdditionalSpecFns;
use vstd::utf8::encode_utf8;
use crate::device::spec_names;
use crate::error::SetupError;
use crate::vulkan::{
    portability_enumeration_name, physical_device_properties2_name,
    INSTANCE_ENUMERATE_PORTABILITY,
};

verus! {

/// The version of the graphics API that the engine asks for.
pub const API_VER_MAJOR: u32 = 1;

pub const API_VER_MINOR: u32 = 0;

pub const API_VER_PATCH: u32 = 0;

/// The packed word of version `major.minor.patch`, variant 0.
pub open spec fn spec_packed_version(major: u32, minor: u32, patch: u32) -> u32 {
    (0u32 << 29) | (major << 22) | (minor << 12) | patch
}

/// Packs a version number as the graphics API wants it.
pub fn packed_version(major: u32, minor: u32, patch: u32) -> (version: u32)
    ensures
        version == spec_packed_version(major, minor, patch),
{
    ash::vk::make_api_version(0, major, minor, patch)
}

/// The API version that the engine asks for: 1.0.0.
pub fn api_version() -> (version: u32)
    ensures
        version == 0x0040_0000u32,
{
    let version = packed_version(API_VER_MAJOR, API_VER_MINOR, API_VER_PATCH);
    assert(((0u32 << 29) | (1u32 << 22) | (0u32 << 12) | 0u32) == 0x0040_0000u32) by (bit_vector);
    version
}

/// Copies string slices into owned strings, one for one.
pub fn convert_to_strings(strs: &[&str]) -> (strings: Vec<String>)
    ensures
        strings.len() == strs.len(),
        forall|i: int| 0 <= i < strs.len() ==> (#[trigger] strings[i])@ == strs[i]@,
{
    let mut strings: Vec<String> = Vec::with_capacity(strs.len());
    let mut i: usize = 0;
    while i < strs.len()
        invariant
            0 <= i <= strs.len(),
            strings.len() == i,
            forall|j: int| 0 <= j < i ==> (#[trigger] strings[j])@ == strs[j]@,
        decreases strs.len() - i,
    {
        strings.push(strs[i].to_string());
        i += 1;
    }
    strings
}

/// The validation layers that the engine enables.
pub open spec fn spec_validation_layers() -> Seq<Seq<char>> {
    seq![
        "VK_LAYER_MESA_device_select"@,
        "VK_LAYER_LUNARG_monitor"@,
        "VK_LAYER_KHRONOS_synchronization2"@,
        "VK_LAYER_KHRONOS_validation"@,
    ]
}

/// The validation layers that the engine enables.
pub fn required_validation_layers() -> (layers: Vec<String>)
    ensures
        spec_names(layers@) == spec_validation_layers(),
{
    let mut layers: Vec<String> = Vec::new();
    layers.push("VK_LAYER_MESA_device_select".to_string());
    layers.push("VK_LAYER_LUNARG_monitor".to_string());
    layers.push("VK_LAYER_KHRONOS_synchronization2".to_string());
    layers.push("VK_LAYER_KHRONOS_validation".to_string());
    assert(spec_names(layers@) =~= spec_validation_layers());
    layers
}

/// Whether the UTF-8 form of `name` has a zero byte, which ends a string of
/// the graphics API before its end.
pub open spec fn spec_has_nul(name: Seq<char>) -> bool {
    encode_utf8(name).contains(0u8)
}

/// Whether `name` has a zero byte.
pub fn has_nul(name: &str) -> (found: bool)
    ensures
        found == spec_has_nul(name@),
{
    let bytes = name.as_bytes();
    let mut i: usize = 0;
    while i < bytes.len()
        invariant
            0 <= i <= bytes.len(),
            bytes@ == name.spec_bytes(),
            forall|j: int| 0 <= j < i ==> bytes[j] != 0u8,
        decreases bytes.len() - i,
    {
        if bytes[i] == 0 {
            assert(name.spec_bytes()[i as int] == 0u8);
            return true;
        }
        i += 1;
    }
    false
}

/// Whether one of `names` has a zero byte.
pub open spec fn spec_any_has_nul(names: Seq<String>) -> bool {
    exists|i: int| 0 <= i < names.len() && spec_has_nul((#[trigger] names[i])@)
}

/// Whether one of `names` has a zero byte.
pub fn any_has_nul(names: &Vec<String>) -> (found: bool)
    ensures
        found == spec_any_has_nul(names@),
{
    let mut i: usize = 0;
    while i < names.len()
        invariant
            0 <= i <= names.len(),
            forall|j: int|
                0 <= j < i ==> !spec_has_nul((#[trigger] names[j])@),
        decreases names.len() - i,
    {
        if has_nul(names[i].as_str()) {
            return true;
        }
        i += 1;
    }
    false
}

/// What the instance of the graphics API is created with.
pub struct InstanceConfig {
    pub app_name: String,
    pub engine_name: String,
    pub application_version: u32,
    pub engine_version: u32,
    pub api_version: u32,
    pub layers: Vec<String>,
    pub extensions: Vec<String>,
    pub flags: u32,
}

/// The extensions that the instance enables: those that the window system
/// asks for, and behind them, where the platform offers the API only
/// through a portability layer, the two that enumerating such devices
/// takes.
pub open spec fn spec_instance_extensions(
    window_extensions: Seq<Seq<char>>,
    portability: bool,
) -> Seq<Seq<char>> {
    if portability {
        window_extensions + seq![
            "VK_KHR_portability_enumeration"@,
            "VK_KHR_get_physical_device_properties2"@,
        ]
    } else {
        window_extensions
    }
}

/// Describes the instance to create for the application `app_name` and an
/// engine of the version `engine_version`.
///
/// Fails exactly when the application's name or one of the window system's
/// extension names has a zero byte.
pub fn create_instance(
    app_name: &str,
    engine_version: (u32, u32, u32),
    window_extensions: Vec<String>,
    portability: bool,
) -> (made: Result<InstanceConfig, SetupError>)
    ensures
        match made {
            Ok(config) => {
                &&& !spec_has_nul(app_name@)
                &&& !spec_any_has_nul(window_extensions@)
                &&& config.app_name@ == app_name@
                &&& config.engine_name@ == "slsh_engine"@
                &&& config.application_version == 0
                &&& config.engine_version == spec_packed_version(
                    engine_version.0,
                    engine_version.1,
                    engine_version.2,
                )
                &&& config.api_version == 0x0040_0000u32
                &&& spec_names(config.layers@) == spec_validation_layers()
                &&& spec_names(config.extensions@) == spec_instance_extensions(
                    spec_names(window_extensions@),
                    portability,
                )
                &&& config.flags == (if portability {
                    INSTANCE_ENUMERATE_PORTABILITY
                } else {
                    0u32
                })
            },
            Err(e) => {
                &&& e == SetupError::InvalidName
                &&& spec_has_nul(app_name@) || spec_any_has_nul(window_extensions@)
            },
        },
{
    if has_nul(app_name) || any_has_nul(&window_extensions) {
        return Err(SetupError::InvalidName);
    }
    let ghost given = spec_names(window_extensions@);
    let mut extensions = window_extensions;
    let mut flags: u32 = 0;
    if portability {
        extensions.push(portability_enumeration_name());
        extensions.push(physical_device_properties2_name());
        flags = INSTANCE_ENUMERATE_PORTABILITY;
    }
    assert(spec_names(extensions@) =~= spec_instance_extensions(given, portability));
    Ok(
        InstanceConfig {
            app_name: app_name.to_string(),
            engine_name: "slsh_engine".to_string(),
            application_version: 0,
            engine_version: packed_version(engine_version.0, engine_version.1, engine_version.2),
            api_version: api_version(),
            layers: required_validation_layers(),
            extensions,
            flags,
        },
    )
}

} // verus!
