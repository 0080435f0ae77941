//! Choice of memory types and the plan of a staged upload.
//!
//! Data reaches device-local memory in two steps: it is written to a
//! host-visible staging buffer, and a one-shot command buffer copies the
//! staging buffer to the device-local target. The application waits for
//! the copy and then destroys the staging buffer.

use vstd::prelude::*;
use crate::error::SetupError;
use crate::swapchain::SharingMode;
use crate::vulkan::{
    memory_flags_contain, spec_flags_contain, COMMAND_BUFFER_USAGE_ONE_TIME_SUBMIT,
    BUFFER_USAGE_TRANSFER_DST,
    BUFFER_USAGE_TRANSFER_SRC, BUFFER_USAGE_UNIFORM_BUFFER, MEMORY_DEVICE_LOCAL,
    MEMORY_HOST_COHERENT, MEMORY_HOST_VISIBLE,
};

verus! {

/// The largest number of memory types that a device reports.
pub const MAX_MEMORY_TYPES: usize = 32;

/// The size in bytes of the per-frame uniform block: three 4x4 matrices of
/// 32-bit floats.
pub const UNIFORM_BUFFER_SIZE: u64 = 192;

/// Whether the buffer may live in memory type `index`: bit `index` of the
/// buffer's type mask is set.
pub open spec fn spec_type_allowed(req_type: u32, index: int) -> bool {
    0 <= index < 32 && req_type & (1u32 << (index as u32)) != 0
}

/// Whether memory type `index` may hold the buffer and has every wanted
/// property.
pub open spec fn spec_type_fits(
    req_type: u32,
    req_properties: u32,
    memory_types: Seq<u32>,
    index: int,
) -> bool {
    &&& 0 <= index < memory_types.len()
    &&& spec_type_allowed(req_type, index)
    &&& spec_flags_contain(memory_types[index], req_properties)
}

/// Finds the memory type for a buffer by a scan of the device's table of
/// memory types, given by the property bits of each type: the first type
/// that the buffer's mask `req_type` allows and that has all of
/// `req_properties`. The first match wins, not the best.
pub fn find_memory_type(req_type: u32, req_properties: u32, memory_types: &Vec<u32>) -> (found:
    Option<u32>)
    requires
        memory_types.len() <= MAX_MEMORY_TYPES,
    ensures
        match found {
            Some(index) => {
                &&& spec_type_fits(req_type, req_properties, memory_types@, index as int)
                &&& forall|j: int|
                    0 <= j < index ==> !spec_type_fits(req_type, req_properties, memory_types@, j)
            },
            None => forall|j: int| !spec_type_fits(req_type, req_properties, memory_types@, j),
        },
{
    let mut i: usize = 0;
    while i < memory_types.len()
        invariant
            0 <= i <= memory_types.len() <= MAX_MEMORY_TYPES,
            forall|j: int| 0 <= j < i ==> !spec_type_fits(req_type, req_properties, memory_types@, j),
        decreases memory_types.len() - i,
    {
        let idx: u32 = i as u32;
        if req_type & (1u32 << idx) != 0 && memory_flags_contain(memory_types[i], req_properties) {
            return Some(idx);
        }
        i += 1;
    }
    None
}

/// What a buffer is created with, and the properties of the memory that
/// backs it.
#[derive(Clone, Copy, Debug, PartialEq, Eq, Structural)]
pub struct BufferConfig {
    pub size: u64,
    pub usage: u32,
    pub sharing_mode: SharingMode,
    pub memory_properties: u32,
}

/// What the device asks of the memory of a buffer.
#[derive(Clone, Copy, Debug, PartialEq, Eq, Structural)]
pub struct MemoryRequirements {
    pub size: u64,
    /// Bit `i` is set if the buffer may live in memory type `i`.
    pub memory_type_bits: u32,
}

/// What the memory of a buffer is allocated with.
#[derive(Clone, Copy, Debug, PartialEq, Eq, Structural)]
pub struct AllocationConfig {
    pub allocation_size: u64,
    pub memory_type_index: u32,
}

/// The parameters of a buffer of `size` bytes that only one queue family
/// uses.
pub fn buffer_config(size: u64, usage: u32, memory_properties: u32) -> (config: BufferConfig)
    ensures
        config == (BufferConfig {
            size,
            usage,
            sharing_mode: SharingMode::Exclusive,
            memory_properties,
        }),
{
    BufferConfig { size, usage, sharing_mode: SharingMode::Exclusive, memory_properties }
}

/// The allocation that backs a buffer: of the size that the device asks
/// for, in the first memory type that fits. Fails exactly when no memory
/// type fits.
pub fn allocation_config(
    requirements: MemoryRequirements,
    properties: u32,
    memory_types: &Vec<u32>,
) -> (made: Result<AllocationConfig, SetupError>)
    requires
        memory_types.len() <= MAX_MEMORY_TYPES,
    ensures
        match made {
            Ok(config) => {
                &&& config.allocation_size == requirements.size
                &&& spec_type_fits(
                    requirements.memory_type_bits,
                    properties,
                    memory_types@,
                    config.memory_type_index as int,
                )
                &&& forall|j: int|
                    0 <= j < config.memory_type_index ==> !spec_type_fits(
                        requirements.memory_type_bits,
                        properties,
                        memory_types@,
                        j,
                    )
            },
            Err(e) => {
                &&& e == SetupError::NoMemoryType
                &&& forall|j: int|
                    !spec_type_fits(requirements.memory_type_bits, properties, memory_types@, j)
            },
        },
{
    match find_memory_type(requirements.memory_type_bits, properties, memory_types) {
        Some(memory_type_index) => Ok(
            AllocationConfig { allocation_size: requirements.size, memory_type_index },
        ),
        None => Err(SetupError::NoMemoryType),
    }
}

/// One step of a staged upload.
#[derive(Clone, Copy, Debug, PartialEq, Eq, Structural)]
pub enum UploadStep {
    /// Create the staging buffer and its memory.
    CreateStaging,
    /// Map the staging memory, copy the data in, flush and unmap.
    FillStaging,
    /// Create the target buffer and its memory.
    CreateTarget,
    /// Record and submit the one-shot copy from staging to target.
    SubmitCopy,
    /// Wait until the graphics queue is idle.
    WaitQueueIdle,
    /// Free the command buffer that held the copy.
    FreeCopyCommands,
    /// Destroy the staging buffer.
    DestroyStaging,
    /// Free the staging memory.
    FreeStaging,
}

/// The range of the staging memory that is mapped, written and flushed.
#[derive(Clone, Copy, Debug, PartialEq, Eq, Structural)]
pub struct MappedRange {
    pub offset: u64,
    pub size: u64,
}

/// The one-shot copy from the staging buffer to the target buffer.
#[derive(Clone, Copy, Debug, PartialEq, Eq, Structural)]
pub struct CopyConfig {
    /// Usage bits of the command buffer that holds the copy.
    pub usage: u32,
    pub src_offset: u64,
    pub dst_offset: u64,
    pub size: u64,
}

/// A staged upload: the two buffers, the range to fill, the region to
/// copy, and the steps in their order.
pub struct UploadPlan {
    pub size_bytes: u64,
    pub staging: BufferConfig,
    pub mapped: MappedRange,
    pub target: BufferConfig,
    pub copy: CopyConfig,
    pub steps: Vec<UploadStep>,
}

/// The copy of the first `size` bytes of one buffer to the beginning of
/// another, in a command buffer that is submitted once.
pub fn copy_buffers(size: u64) -> (copy: CopyConfig)
    ensures
        copy == (CopyConfig {
            usage: COMMAND_BUFFER_USAGE_ONE_TIME_SUBMIT,
            src_offset: 0,
            dst_offset: 0,
            size,
        }),
{
    CopyConfig { usage: COMMAND_BUFFER_USAGE_ONE_TIME_SUBMIT, src_offset: 0, dst_offset: 0, size }
}

/// The steps of a staged upload, in their order. The command buffer of
/// the copy and the staging buffer go only after the wait for the copy.
pub open spec fn spec_upload_steps() -> Seq<UploadStep> {
    seq![
        UploadStep::CreateStaging,
        UploadStep::FillStaging,
        UploadStep::CreateTarget,
        UploadStep::SubmitCopy,
        UploadStep::WaitQueueIdle,
        UploadStep::FreeCopyCommands,
        UploadStep::DestroyStaging,
        UploadStep::FreeStaging,
    ]
}

/// The staging buffer of an upload of `size` bytes: a transfer source in
/// host-visible memory.
pub open spec fn spec_staging_buffer(size: u64) -> BufferConfig {
    BufferConfig {
        size,
        usage: BUFFER_USAGE_TRANSFER_SRC,
        sharing_mode: SharingMode::Exclusive,
        memory_properties: MEMORY_HOST_VISIBLE,
    }
}

/// The target buffer of an upload of `size` bytes: of the caller's usage
/// and a transfer destination, in device-local memory.
pub open spec fn spec_target_buffer(size: u64, usage: u32) -> BufferConfig {
    BufferConfig {
        size,
        usage: usage | BUFFER_USAGE_TRANSFER_DST,
        sharing_mode: SharingMode::Exclusive,
        memory_properties: MEMORY_DEVICE_LOCAL,
    }
}

/// Whether `plan` is the staged upload of `size` bytes into a buffer of
/// usage `usage`: both buffers are of that size, the whole of the staging
/// memory is filled and the whole of it is copied to the beginning of the
/// target, in the order of the steps.
pub open spec fn spec_is_upload_plan(plan: UploadPlan, size: int, usage: u32) -> bool {
    &&& plan.size_bytes == size
    &&& plan.staging == spec_staging_buffer(plan.size_bytes)
    &&& plan.mapped == (MappedRange { offset: 0, size: plan.size_bytes })
    &&& plan.copy == (CopyConfig {
        usage: COMMAND_BUFFER_USAGE_ONE_TIME_SUBMIT,
        src_offset: 0,
        dst_offset: 0,
        size: plan.size_bytes,
    })
    &&& plan.target == spec_target_buffer(plan.size_bytes, usage)
    &&& plan.steps@ == spec_upload_steps()
}

/// Plans the staged upload of `len` items of `item_size` bytes each into a
/// buffer of usage `usage`. Fails exactly when the size in bytes does not
/// fit 64 bits.
pub fn plan_upload(len: usize, item_size: usize, usage: u32) -> (planned: Result<
    UploadPlan,
    SetupError,
>)
    ensures
        match planned {
            Ok(plan) => spec_is_upload_plan(plan, len * item_size, usage),
            Err(e) => e == SetupError::SizeOverflow && len * item_size > u64::MAX,
        },
{
    let size_bytes = match (len as u64).checked_mul(item_size as u64) {
        Some(size) => size,
        None => {
            return Err(SetupError::SizeOverflow);
        },
    };
    let staging = buffer_config(size_bytes, BUFFER_USAGE_TRANSFER_SRC, MEMORY_HOST_VISIBLE);
    let target = buffer_config(size_bytes, usage | BUFFER_USAGE_TRANSFER_DST, MEMORY_DEVICE_LOCAL);
    let mut steps: Vec<UploadStep> = Vec::new();
    steps.push(UploadStep::CreateStaging);
    steps.push(UploadStep::FillStaging);
    steps.push(UploadStep::CreateTarget);
    steps.push(UploadStep::SubmitCopy);
    steps.push(UploadStep::WaitQueueIdle);
    steps.push(UploadStep::FreeCopyCommands);
    steps.push(UploadStep::DestroyStaging);
    steps.push(UploadStep::FreeStaging);
    assert(steps@ =~= spec_upload_steps());
    Ok(
        UploadPlan {
            size_bytes,
            staging,
            mapped: MappedRange { offset: 0, size: size_bytes },
            target,
            copy: copy_buffers(size_bytes),
            steps,
        },
    )
}

/// The per-frame uniform buffers skip staging: each is host-visible and
/// host-coherent, mapped once and written every frame.
pub open spec fn spec_uniform_buffer() -> BufferConfig {
    BufferConfig {
        size: UNIFORM_BUFFER_SIZE,
        usage: BUFFER_USAGE_UNIFORM_BUFFER,
        sharing_mode: SharingMode::Exclusive,
        memory_properties: MEMORY_HOST_VISIBLE | MEMORY_HOST_COHERENT,
    }
}

/// The uniform buffers to create: one for each of `frames` frame slots.
pub fn uniform_buffer_configs(frames: usize) -> (configs: Vec<BufferConfig>)
    ensures
        configs@ == Seq::new(frames as nat, |i: int| spec_uniform_buffer()),
{
    let mut configs: Vec<BufferConfig> = Vec::with_capacity(frames);
    let mut i: usize = 0;
    while i < frames
        invariant
            0 <= i <= frames,
            configs.len() == i,
            forall|j: int| 0 <= j < i ==> configs[j] == spec_uniform_buffer(),
        decreases frames - i,
    {
        configs.push(
            buffer_config(
                UNIFORM_BUFFER_SIZE,
                BUFFER_USAGE_UNIFORM_BUFFER,
                MEMORY_HOST_VISIBLE | MEMORY_HOST_COHERENT,
            ),
        );
        i += 1;
    }
    assert(configs@ =~= Seq::new(frames as nat, |i: int| spec_uniform_buffer()));
    configs
}

} // verus!
