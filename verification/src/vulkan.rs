//! Numeric codes of the graphics API that the engine's decisions read, and
//! the calls into `ash` that the library makes.
//!
//! The library works on the raw codes; the application converts between
//! them and `ash`'s wrapper types with `as_raw` and `from_raw`.

use vstd::prelude::*;

verus! {

/// Raw codes of the physical device types.
pub const DEVICE_TYPE_OTHER: i32 = 0;

pub const DEVICE_TYPE_INTEGRATED_GPU: i32 = 1;

pub const DEVICE_TYPE_DISCRETE_GPU: i32 = 2;

pub const DEVICE_TYPE_VIRTUAL_GPU: i32 = 3;

pub const DEVICE_TYPE_CPU: i32 = 4;

/// Raw codes of the presentation modes.
pub const PRESENT_MODE_IMMEDIATE: i32 = 0;

pub const PRESENT_MODE_MAILBOX: i32 = 1;

pub const PRESENT_MODE_FIFO: i32 = 2;

pub const PRESENT_MODE_FIFO_RELAXED: i32 = 3;

/// Raw code of the 8-bit-per-channel BGRA surface format.
pub const FORMAT_B8G8R8A8_UNORM: i32 = 44;

/// Raw code of the two-component 32-bit float vertex attribute format.
pub const FORMAT_R32G32_SFLOAT: i32 = 103;

/// Raw code of the three-component 32-bit float vertex attribute format.
pub const FORMAT_R32G32B32_SFLOAT: i32 = 106;

/// Raw code of the nonlinear sRGB colour space.
pub const COLOR_SPACE_SRGB_NONLINEAR: i32 = 0;

/// Capability bits of a queue family.
pub const QUEUE_GRAPHICS: u32 = 0x1;

pub const QUEUE_COMPUTE: u32 = 0x2;

pub const QUEUE_TRANSFER: u32 = 0x4;

/// Property bits of a memory type.
pub const MEMORY_DEVICE_LOCAL: u32 = 0x1;

pub const MEMORY_HOST_VISIBLE: u32 = 0x2;

pub const MEMORY_HOST_COHERENT: u32 = 0x4;

/// Usage bits of a buffer.
pub const BUFFER_USAGE_TRANSFER_SRC: u32 = 0x1;

pub const BUFFER_USAGE_TRANSFER_DST: u32 = 0x2;

pub const BUFFER_USAGE_UNIFORM_BUFFER: u32 = 0x10;

pub const BUFFER_USAGE_INDEX_BUFFER: u32 = 0x40;

pub const BUFFER_USAGE_VERTEX_BUFFER: u32 = 0x80;

/// Shader stage bits.
pub const SHADER_STAGE_VERTEX: u32 = 0x1;

pub const SHADER_STAGE_FRAGMENT: u32 = 0x10;

/// Usage bit of an image that is rendered to as a colour attachment.
pub const IMAGE_USAGE_COLOR_ATTACHMENT: u32 = 0x10;

/// Composite-alpha bit for an opaque surface.
pub const COMPOSITE_ALPHA_OPAQUE: u32 = 0x1;

/// Aspect bit of an image's colour data.
pub const IMAGE_ASPECT_COLOR: u32 = 0x1;

/// Raw code of the two-dimensional image view type.
pub const IMAGE_VIEW_TYPE_2D: i32 = 1;

/// Raw code of the component mapping that leaves a channel where it is.
pub const COMPONENT_SWIZZLE_IDENTITY: i32 = 0;

/// Raw codes of the primitive topologies that the engine draws.
pub const TOPOLOGY_LINE_LIST: i32 = 1;

pub const TOPOLOGY_TRIANGLE_LIST: i32 = 3;

/// Raw code of the polygon mode that fills triangles.
pub const POLYGON_MODE_FILL: i32 = 0;

/// Cull-mode bit for back faces.
pub const CULL_MODE_BACK: u32 = 0x2;

/// Raw code of the counter-clockwise front face.
pub const FRONT_FACE_COUNTER_CLOCKWISE: i32 = 0;

/// Sample-count bit for one sample per pixel.
pub const SAMPLE_COUNT_1: u32 = 0x1;

/// Write-mask bits of all four colour channels.
pub const COLOR_COMPONENT_RGBA: u32 = 0xF;

/// Raw code of the per-vertex input rate.
pub const VERTEX_INPUT_RATE_VERTEX: i32 = 0;

/// Raw code of the uniform-buffer descriptor type.
pub const DESCRIPTOR_TYPE_UNIFORM_BUFFER: i32 = 6;

/// Raw code of the 16-bit index type.
pub const INDEX_TYPE_UINT16: i32 = 0;

/// Raw code of the graphics bind point.
pub const PIPELINE_BIND_POINT_GRAPHICS: i32 = 0;

/// Raw codes of the attachment load and store operations.
pub const ATTACHMENT_LOAD_OP_CLEAR: i32 = 1;

pub const ATTACHMENT_LOAD_OP_DONT_CARE: i32 = 2;

pub const ATTACHMENT_STORE_OP_STORE: i32 = 0;

pub const ATTACHMENT_STORE_OP_DONT_CARE: i32 = 1;

/// Raw codes of the image layouts that the render pass moves between.
pub const IMAGE_LAYOUT_UNDEFINED: i32 = 0;

pub const IMAGE_LAYOUT_COLOR_ATTACHMENT_OPTIMAL: i32 = 2;

pub const IMAGE_LAYOUT_PRESENT_SRC: i32 = 1_000_001_002;

/// The subpass index that stands for what happens outside the render pass.
pub const SUBPASS_EXTERNAL: u32 = 0xFFFF_FFFF;

/// Stage bit of the colour-attachment output.
pub const PIPELINE_STAGE_COLOR_ATTACHMENT_OUTPUT: u32 = 0x400;

/// Access bit of a write to a colour attachment.
pub const ACCESS_COLOR_ATTACHMENT_WRITE: u32 = 0x100;

/// Usage bit of a command buffer that is submitted once.
pub const COMMAND_BUFFER_USAGE_ONE_TIME_SUBMIT: u32 = 0x1;

/// Creation bit of a command pool whose buffers can be reset one by one.
pub const COMMAND_POOL_RESET_COMMAND_BUFFER: u32 = 0x2;

/// Creation bit of a fence that starts signaled.
pub const FENCE_SIGNALED: u32 = 0x1;

/// Creation bit of an instance that also enumerates portability devices.
pub const INSTANCE_ENUMERATE_PORTABILITY: u32 = 0x1;

/// Raw code of the primary command-buffer level.
pub const COMMAND_BUFFER_LEVEL_PRIMARY: i32 = 0;

/// Whether every bit of `wanted` is set in `flags`.
pub open spec fn spec_flags_contain(flags: u32, wanted: u32) -> bool {
    flags & wanted == wanted
}

/// `ash::vk::make_api_version` packs the four parts of a version into one
/// word: the variant above bit 29, the major number above bit 22, the minor
/// number above bit 12 and the patch number in the low bits, joined by
/// bitwise or. Trusted, not proved.
pub assume_specification[ ash::vk::make_api_version ](
    variant: u32,
    major: u32,
    minor: u32,
    patch: u32,
) -> (version: u32)
    ensures
        version == ((variant << 29) | (major << 22) | (minor << 12) | patch),
;

/// `ash::vk::QueueFlags::contains` on the flag sets with the raw bits
/// `flags` and `wanted`: true exactly when every bit of `wanted` is set in
/// `flags`. Trusted, not proved.
#[verifier::external_body]
pub(crate) fn queue_flags_contain(flags: u32, wanted: u32) -> (held: bool)
    ensures
        held == spec_flags_contain(flags, wanted),
{
    ash::vk::QueueFlags::from_raw(flags).contains(ash::vk::QueueFlags::from_raw(wanted))
}

/// `ash::vk::MemoryPropertyFlags::contains` on the flag sets with the raw
/// bits `flags` and `wanted`: true exactly when every bit of `wanted` is set
/// in `flags`. Trusted, not proved.
#[verifier::external_body]
pub(crate) fn memory_flags_contain(flags: u32, wanted: u32) -> (held: bool)
    ensures
        held == spec_flags_contain(flags, wanted),
{
    ash::vk::MemoryPropertyFlags::from_raw(flags).contains(
        ash::vk::MemoryPropertyFlags::from_raw(wanted),
    )
}

/// `ash::vk::KhrPortabilityEnumerationFn::name`, as an owned string: the
/// name of the instance extension that lets portability devices be
/// enumerated. Trusted, not proved.
#[verifier::external_body]
pub(crate) fn portability_enumeration_name() -> (name: String)
    ensures
        name@ == "VK_KHR_portability_enumeration"@,
{
    ash::vk::KhrPortabilityEnumerationFn::name().to_string_lossy().into_owned()
}

/// `ash::vk::KhrGetPhysicalDeviceProperties2Fn::name`, as an owned string:
/// the name of the instance extension that the portability subset builds
/// on. Trusted, not proved.
#[verifier::external_body]
pub(crate) fn physical_device_properties2_name() -> (name: String)
    ensures
        name@ == "VK_KHR_get_physical_device_properties2"@,
{
    ash::vk::KhrGetPhysicalDeviceProperties2Fn::name().to_string_lossy().into_owned()
}

} // verus!
