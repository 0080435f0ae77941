//! Description of the graphics pipeline: shader words, vertex layout and
//! the fixed-function state.

use vstd::prelude::*;
use vstd::endian::{endianness, Endian};
use crate::error::SetupError;
use crate::swapchain::Extent2D;
use crate::vulkan::{
    ACCESS_COLOR_ATTACHMENT_WRITE, ATTACHMENT_LOAD_OP_CLEAR, ATTACHMENT_LOAD_OP_DONT_CARE,
    ATTACHMENT_STORE_OP_DONT_CARE, ATTACHMENT_STORE_OP_STORE, COLOR_COMPONENT_RGBA, CULL_MODE_BACK,
    DESCRIPTOR_TYPE_UNIFORM_BUFFER, FORMAT_R32G32B32_SFLOAT, FORMAT_R32G32_SFLOAT,
    FRONT_FACE_COUNTER_CLOCKWISE, IMAGE_LAYOUT_COLOR_ATTACHMENT_OPTIMAL, IMAGE_LAYOUT_PRESENT_SRC,
    IMAGE_LAYOUT_UNDEFINED, PIPELINE_BIND_POINT_GRAPHICS, PIPELINE_STAGE_COLOR_ATTACHMENT_OUTPUT,
    POLYGON_MODE_FILL, SAMPLE_COUNT_1, SHADER_STAGE_FRAGMENT, SHADER_STAGE_VERTEX,
    SUBPASS_EXTERNAL, TOPOLOGY_LINE_LIST, TOPOLOGY_TRIANGLE_LIST, VERTEX_INPUT_RATE_VERTEX,
};

verus! {

/// The word whose four bytes in memory, from the lowest address up, are
/// `b0` to `b3`, on a machine of byte order `order`.
pub open spec fn spec_word(order: Endian, b0: u8, b1: u8, b2: u8, b3: u8) -> int {
    match order {
        Endian::Little => b0 + b1 * 0x100 + b2 * 0x1_0000 + b3 * 0x100_0000,
        Endian::Big => b3 + b2 * 0x100 + b1 * 0x1_0000 + b0 * 0x100_0000,
    }
}

/// The words that `bytes` hold, four bytes to a word, in the byte order of
/// the machine.
pub open spec fn spec_words(bytes: Seq<u8>) -> Seq<int> {
    Seq::new(
        (bytes.len() / 4) as nat,
        |i: int|
            spec_word(
                endianness(),
                bytes[4 * i],
                bytes[4 * i + 1],
                bytes[4 * i + 2],
                bytes[4 * i + 3],
            ),
    )
}

/// `u32::from_ne_bytes` on the array of `b0` to `b3`: the word that has
/// these four bytes as its memory representation in the byte order of the
/// machine. Trusted, not proved.
#[verifier::external_body]
fn word_from_ne_bytes(b0: u8, b1: u8, b2: u8, b3: u8) -> (word: u32)
    ensures
        word == spec_word(endianness(), b0, b1, b2, b3),
{
    u32::from_ne_bytes([b0, b1, b2, b3])
}

/// Reads shader bytecode as 32-bit words. The length of `bytes` must be a
/// multiple of 4.
pub fn pack_to_u32s(bytes: &[u8]) -> (words: Vec<u32>)
    requires
        bytes.len() % 4 == 0,
    ensures
        words@.map_values(|w: u32| w as int) == spec_words(bytes@),
{
    let count = bytes.len() / 4;
    let mut words: Vec<u32> = Vec::with_capacity(count);
    let mut i: usize = 0;
    while i < count
        invariant
            0 <= i <= count,
            count == bytes.len() / 4,
            bytes.len() % 4 == 0,
            words.len() == i,
            forall|j: int|
                0 <= j < i ==> (#[trigger] words[j]) as int == spec_word(
                    endianness(),
                    bytes[4 * j],
                    bytes[4 * j + 1],
                    bytes[4 * j + 2],
                    bytes[4 * j + 3],
                ),
        decreases count - i,
    {
        let at = 4 * i;
        words.push(word_from_ne_bytes(bytes[at], bytes[at + 1], bytes[at + 2], bytes[at + 3]));
        i += 1;
    }
    assert(words@.map_values(|w: u32| w as int) =~= spec_words(bytes@));
    words
}

/// Reads shader bytecode as 32-bit words. Fails exactly when the length of
/// `code` is not a multiple of 4.
pub fn shader_words(code: &[u8]) -> (read: Result<Vec<u32>, SetupError>)
    ensures
        match read {
            Ok(words) => {
                &&& code.len() % 4 == 0
                &&& words@.map_values(|w: u32| w as int) == spec_words(code@)
            },
            Err(e) => e == SetupError::ShaderLength && code.len() % 4 != 0,
        },
{
    if code.len() % 4 != 0 {
        return Err(SetupError::ShaderLength);
    }
    Ok(pack_to_u32s(code))
}

/// The two vertex formats of the engine.
#[derive(Clone, Copy, Debug, PartialEq, Eq, Structural)]
pub enum VertexFormat {
    /// A 2D position: two 32-bit floats, 8 bytes a vertex.
    Position2D,
    /// A 2D position and an RGB colour: five 32-bit floats, 20 bytes a
    /// vertex, without padding.
    PositionColor,
}

/// One attribute of a vertex: where the shader reads it and where it lies
/// in the vertex.
#[derive(Clone, Copy, Debug, PartialEq, Eq, Structural)]
pub struct VertexAttribute {
    pub location: u32,
    pub binding: u32,
    pub format: i32,
    pub offset: u32,
}

/// How the vertices of a buffer are laid out.
pub struct VertexLayout {
    pub binding: u32,
    pub stride: u32,
    pub input_rate: i32,
    pub attributes: Vec<VertexAttribute>,
}

/// The number of bytes from one vertex to the next.
pub open spec fn spec_vertex_stride(format: VertexFormat) -> u32 {
    match format {
        VertexFormat::Position2D => 8,
        VertexFormat::PositionColor => 20,
    }
}

/// The attributes of a vertex: the position at offset 0, and behind it the
/// colour where the format has one.
pub open spec fn spec_vertex_attributes(format: VertexFormat) -> Seq<VertexAttribute> {
    match format {
        VertexFormat::Position2D => seq![
            VertexAttribute { location: 0, binding: 0, format: FORMAT_R32G32_SFLOAT, offset: 0 },
        ],
        VertexFormat::PositionColor => seq![
            VertexAttribute { location: 0, binding: 0, format: FORMAT_R32G32_SFLOAT, offset: 0 },
            VertexAttribute { location: 1, binding: 0, format: FORMAT_R32G32B32_SFLOAT, offset: 8 },
        ],
    }
}

/// The layout of the vertices of a buffer of the given format.
pub fn vertex_layout(format: VertexFormat) -> (layout: VertexLayout)
    ensures
        layout.binding == 0,
        layout.stride == spec_vertex_stride(format),
        layout.input_rate == VERTEX_INPUT_RATE_VERTEX,
        layout.attributes@ == spec_vertex_attributes(format),
{
    let size_f32: u32 = 4;
    let mut attributes: Vec<VertexAttribute> = Vec::new();
    attributes.push(
        VertexAttribute { location: 0, binding: 0, format: FORMAT_R32G32_SFLOAT, offset: 0 },
    );
    let stride = match format {
        VertexFormat::Position2D => size_f32 * 2,
        VertexFormat::PositionColor => {
            attributes.push(
                VertexAttribute {
                    location: 1,
                    binding: 0,
                    format: FORMAT_R32G32B32_SFLOAT,
                    offset: size_f32 * 2,
                },
            );
            size_f32 * 5
        },
    };
    assert(attributes@ =~= spec_vertex_attributes(format));
    VertexLayout { binding: 0, stride, input_rate: VERTEX_INPUT_RATE_VERTEX, attributes }
}

/// What a mesh is made of.
#[derive(Clone, Copy, Debug, PartialEq, Eq, Structural)]
pub enum MeshKind {
    /// Filled triangles.
    Filled,
    /// Lines, as of the grid and the crosshair.
    Wireframe,
}

/// A filled mesh is a list of triangles, a wireframe a list of lines.
pub open spec fn spec_topology(kind: MeshKind) -> i32 {
    match kind {
        MeshKind::Filled => TOPOLOGY_TRIANGLE_LIST,
        MeshKind::Wireframe => TOPOLOGY_LINE_LIST,
    }
}

/// The primitive topology of a mesh of the given kind.
pub fn topology(kind: MeshKind) -> (code: i32)
    ensures
        code == spec_topology(kind),
{
    match kind {
        MeshKind::Filled => TOPOLOGY_TRIANGLE_LIST,
        MeshKind::Wireframe => TOPOLOGY_LINE_LIST,
    }
}

/// The fixed-function state of a pipeline. It is the same for every
/// pipeline but for the topology and the extent.
#[derive(Clone, Copy, Debug, PartialEq, Eq, Structural)]
pub struct FixedFunctionState {
    pub topology: i32,
    pub primitive_restart: bool,
    /// The one viewport and the one scissor both cover this extent from
    /// the origin, the viewport with depth from 0 to 1.
    pub viewport_extent: Extent2D,
    pub depth_clamp: bool,
    pub rasterizer_discard: bool,
    pub polygon_mode: i32,
    pub cull_mode: u32,
    pub front_face: i32,
    pub depth_bias: bool,
    pub rasterization_samples: u32,
    pub sample_shading: bool,
    pub depth_test: bool,
    pub depth_write: bool,
    pub stencil_test: bool,
    pub blend: bool,
    pub color_write_mask: u32,
    pub logic_op: bool,
}

/// One viewport and scissor over the full extent, back faces culled, no
/// depth or stencil test, one sample, no blending, all four channels
/// written.
pub open spec fn spec_fixed_function_state(kind: MeshKind, extent: Extent2D) -> FixedFunctionState {
    FixedFunctionState {
        topology: spec_topology(kind),
        primitive_restart: false,
        viewport_extent: extent,
        depth_clamp: false,
        rasterizer_discard: false,
        polygon_mode: POLYGON_MODE_FILL,
        cull_mode: CULL_MODE_BACK,
        front_face: FRONT_FACE_COUNTER_CLOCKWISE,
        depth_bias: false,
        rasterization_samples: SAMPLE_COUNT_1,
        sample_shading: false,
        depth_test: false,
        depth_write: false,
        stencil_test: false,
        blend: false,
        color_write_mask: COLOR_COMPONENT_RGBA,
        logic_op: false,
    }
}

/// The fixed-function state of the pipeline of a mesh of the given kind,
/// drawn over `extent`.
pub fn fixed_function_state(kind: MeshKind, extent: Extent2D) -> (state: FixedFunctionState)
    ensures
        state == spec_fixed_function_state(kind, extent),
{
    FixedFunctionState {
        topology: topology(kind),
        primitive_restart: false,
        viewport_extent: extent,
        depth_clamp: false,
        rasterizer_discard: false,
        polygon_mode: POLYGON_MODE_FILL,
        cull_mode: CULL_MODE_BACK,
        front_face: FRONT_FACE_COUNTER_CLOCKWISE,
        depth_bias: false,
        rasterization_samples: SAMPLE_COUNT_1,
        sample_shading: false,
        depth_test: false,
        depth_write: false,
        stencil_test: false,
        blend: false,
        color_write_mask: COLOR_COMPONENT_RGBA,
        logic_op: false,
    }
}

/// The code of one shader stage: its length in bytes and its words.
pub struct ShaderCode {
    pub stage: u32,
    pub code_size: usize,
    pub words: Vec<u32>,
}

/// All that a graphics pipeline is created from, but for the handles of
/// the render pass and the pipeline layout. Both shaders are entered at
/// `main`; their modules are destroyed once the pipeline exists.
pub struct PipelineConfig {
    pub vertex_shader: ShaderCode,
    pub fragment_shader: ShaderCode,
    pub vertex_layout: VertexLayout,
    pub fixed: FixedFunctionState,
    pub subpass: u32,
}

/// Whether `code` holds the shader binary `bytes` for the stage `stage`.
pub open spec fn spec_is_shader_code(code: ShaderCode, stage: u32, bytes: Seq<u8>) -> bool {
    &&& code.stage == stage
    &&& code.code_size == bytes.len()
    &&& code.words@.map_values(|w: u32| w as int) == spec_words(bytes)
}

/// Whether `config` describes the pipeline of a mesh of kind `kind` with
/// vertices of format `format`, drawn over `extent` with the two shaders.
pub open spec fn spec_is_pipeline_config(
    config: PipelineConfig,
    vert: Seq<u8>,
    frag: Seq<u8>,
    format: VertexFormat,
    kind: MeshKind,
    extent: Extent2D,
) -> bool {
    &&& spec_is_shader_code(config.vertex_shader, SHADER_STAGE_VERTEX, vert)
    &&& spec_is_shader_code(config.fragment_shader, SHADER_STAGE_FRAGMENT, frag)
    &&& config.vertex_layout.binding == 0
    &&& config.vertex_layout.stride == spec_vertex_stride(format)
    &&& config.vertex_layout.input_rate == VERTEX_INPUT_RATE_VERTEX
    &&& config.vertex_layout.attributes@ == spec_vertex_attributes(format)
    &&& config.fixed == spec_fixed_function_state(kind, extent)
    &&& config.subpass == 0
}

/// Describes the graphics pipeline of a mesh. Fails exactly when the
/// length of one of the two shader binaries is not a multiple of 4, before
/// anything is created.
pub fn pipeline_config(
    vert_shader_compiled: &[u8],
    frag_shader_compiled: &[u8],
    format: VertexFormat,
    kind: MeshKind,
    extent: Extent2D,
) -> (made: Result<PipelineConfig, SetupError>)
    ensures
        match made {
            Ok(config) => {
                &&& vert_shader_compiled.len() % 4 == 0
                &&& frag_shader_compiled.len() % 4 == 0
                &&& spec_is_pipeline_config(
                    config,
                    vert_shader_compiled@,
                    frag_shader_compiled@,
                    format,
                    kind,
                    extent,
                )
            },
            Err(e) => {
                &&& e == SetupError::ShaderLength
                &&& vert_shader_compiled.len() % 4 != 0 || frag_shader_compiled.len() % 4 != 0
            },
        },
{
    let vert_words = match shader_words(vert_shader_compiled) {
        Ok(words) => words,
        Err(e) => {
            return Err(e);
        },
    };
    let frag_words = match shader_words(frag_shader_compiled) {
        Ok(words) => words,
        Err(e) => {
            return Err(e);
        },
    };
    Ok(
        PipelineConfig {
            vertex_shader: ShaderCode {
                stage: SHADER_STAGE_VERTEX,
                code_size: vert_shader_compiled.len(),
                words: vert_words,
            },
            fragment_shader: ShaderCode {
                stage: SHADER_STAGE_FRAGMENT,
                code_size: frag_shader_compiled.len(),
                words: frag_words,
            },
            vertex_layout: vertex_layout(format),
            fixed: fixed_function_state(kind, extent),
            subpass: 0,
        },
    )
}

/// The size in bytes of the overlay's push-constant block: a 4x4 matrix of
/// 32-bit floats and a colour of three, padded to the matrix's alignment.
pub const PUSH_CONSTANTS_SIZE: usize = 80;

/// A range of push constants that the stages `stage_flags` see.
#[derive(Clone, Copy, Debug, PartialEq, Eq, Structural)]
pub struct PushConstantRange {
    pub stage_flags: u32,
    pub offset: u32,
    pub size: u32,
}

/// The push-constant range of a block of `size` bytes, from offset 0.
/// `None` exactly when the size does not fit 32 bits.
pub fn create_push_const_range(stage_flags: u32, size: usize) -> (range: Option<PushConstantRange>)
    ensures
        size > u32::MAX ==> range is None,
        size <= u32::MAX ==> range == Some(
            PushConstantRange { stage_flags, offset: 0, size: size as u32 },
        ),
{
    if size > u32::MAX as usize {
        None
    } else {
        Some(PushConstantRange { stage_flags, offset: 0, size: size as u32 })
    }
}

/// What a pipeline layout is created from: at most one range of push
/// constants and at most one descriptor-set layout.
#[derive(Clone, Copy, Debug, PartialEq, Eq)]
pub struct PipelineLayoutConfig {
    pub push_constant_range_count: u32,
    pub push_constant_range: Option<PushConstantRange>,
    pub set_layout_count: u32,
    pub set_layout: Option<u64>,
}

/// The layout of a pipeline that takes the push constants
/// `push_const_range`, if any, and the descriptor-set layout
/// `desc_set_layout`, if any.
pub open spec fn spec_pipeline_layout(
    push_const_range: Option<PushConstantRange>,
    desc_set_layout: Option<u64>,
) -> PipelineLayoutConfig {
    PipelineLayoutConfig {
        push_constant_range_count: if push_const_range is Some {
            1
        } else {
            0
        },
        push_constant_range: push_const_range,
        set_layout_count: if desc_set_layout is Some {
            1
        } else {
            0
        },
        set_layout: desc_set_layout,
    }
}

/// Describes the layout of a pipeline.
pub fn create_pipeline_layout(
    push_const_range: Option<PushConstantRange>,
    desc_set_layout: Option<u64>,
) -> (config: PipelineLayoutConfig)
    ensures
        config == spec_pipeline_layout(push_const_range, desc_set_layout),
{
    let push_constant_range_count: u32 = match push_const_range {
        Some(_) => 1,
        None => 0,
    };
    let set_layout_count: u32 = match desc_set_layout {
        Some(_) => 1,
        None => 0,
    };
    PipelineLayoutConfig {
        push_constant_range_count,
        push_constant_range: push_const_range,
        set_layout_count,
        set_layout: desc_set_layout,
    }
}

/// The one binding of the descriptor-set layout: the uniform block, seen by
/// the vertex stage.
#[derive(Clone, Copy, Debug, PartialEq, Eq, Structural)]
pub struct DescriptorBinding {
    pub binding: u32,
    pub descriptor_type: i32,
    pub descriptor_count: u32,
    pub stage_flags: u32,
}

/// Describes the one binding of the descriptor-set layout.
pub fn create_desc_set_layout() -> (binding: DescriptorBinding)
    ensures
        binding == (DescriptorBinding {
            binding: 0,
            descriptor_type: DESCRIPTOR_TYPE_UNIFORM_BUFFER,
            descriptor_count: 1,
            stage_flags: SHADER_STAGE_VERTEX,
        }),
{
    DescriptorBinding {
        binding: 0,
        descriptor_type: DESCRIPTOR_TYPE_UNIFORM_BUFFER,
        descriptor_count: 1,
        stage_flags: SHADER_STAGE_VERTEX,
    }
}

/// What the descriptor pool is created with: room for one uniform-buffer
/// descriptor set for each frame slot.
#[derive(Clone, Copy, Debug, PartialEq, Eq, Structural)]
pub struct DescriptorPoolConfig {
    pub descriptor_type: i32,
    pub descriptor_count: u32,
    pub max_sets: u32,
}

/// The descriptor pool for `frames` frame slots. `None` exactly when the
/// number of slots does not fit 32 bits.
pub fn create_desc_pool(frames: usize) -> (config: Option<DescriptorPoolConfig>)
    ensures
        frames > u32::MAX ==> config is None,
        frames <= u32::MAX ==> config == Some(
            DescriptorPoolConfig {
                descriptor_type: DESCRIPTOR_TYPE_UNIFORM_BUFFER,
                descriptor_count: frames as u32,
                max_sets: frames as u32,
            },
        ),
{
    if frames > u32::MAX as usize {
        None
    } else {
        Some(
            DescriptorPoolConfig {
                descriptor_type: DESCRIPTOR_TYPE_UNIFORM_BUFFER,
                descriptor_count: frames as u32,
                max_sets: frames as u32,
            },
        )
    }
}

/// The layouts that the descriptor sets of `frames` frame slots are
/// allocated with: the same layout for every slot.
pub fn create_desc_sets(desc_set_layout: u64, frames: usize) -> (layouts: Vec<u64>)
    ensures
        layouts@ == Seq::new(frames as nat, |i: int| desc_set_layout),
{
    let mut layouts: Vec<u64> = Vec::with_capacity(frames);
    let mut i: usize = 0;
    while i < frames
        invariant
            0 <= i <= frames,
            layouts.len() == i,
            forall|j: int| 0 <= j < i ==> layouts[j] == desc_set_layout,
        decreases frames - i,
    {
        layouts.push(desc_set_layout);
        i += 1;
    }
    assert(layouts@ =~= Seq::new(frames as nat, |i: int| desc_set_layout));
    layouts
}

/// One write to a descriptor set: the whole of a uniform buffer goes to
/// binding 0 of the set.
#[derive(Clone, Copy, Debug, PartialEq, Eq, Structural)]
pub struct DescriptorWrite {
    pub dst_set: u64,
    pub dst_binding: u32,
    pub dst_array_element: u32,
    pub descriptor_count: u32,
    pub descriptor_type: i32,
    pub buffer: u64,
    pub offset: u64,
    pub range: u64,
}

/// The write that binds uniform buffer `buffer` of `range` bytes to the
/// descriptor set `set`.
pub open spec fn spec_descriptor_write(set: u64, buffer: u64, range: u64) -> DescriptorWrite {
    DescriptorWrite {
        dst_set: set,
        dst_binding: 0,
        dst_array_element: 0,
        descriptor_count: 1,
        descriptor_type: DESCRIPTOR_TYPE_UNIFORM_BUFFER,
        buffer,
        offset: 0,
        range,
    }
}

/// The writes that bind each frame slot's uniform buffer to the slot's
/// descriptor set. `None` exactly when the two lists differ in length.
pub fn fill_desc_sets(uniform_buffers: &Vec<u64>, desc_sets: &Vec<u64>, range: u64) -> (writes:
    Option<Vec<DescriptorWrite>>)
    ensures
        uniform_buffers.len() != desc_sets.len() <==> writes is None,
        writes matches Some(list) ==> {
            &&& list.len() == desc_sets.len()
            &&& forall|i: int|
                0 <= i < list.len() ==> #[trigger] list[i] == spec_descriptor_write(
                    desc_sets[i],
                    uniform_buffers[i],
                    range,
                )
        },
{
    if uniform_buffers.len() != desc_sets.len() {
        return None;
    }
    let mut writes: Vec<DescriptorWrite> = Vec::with_capacity(desc_sets.len());
    let mut i: usize = 0;
    while i < desc_sets.len()
        invariant
            0 <= i <= desc_sets.len(),
            uniform_buffers.len() == desc_sets.len(),
            writes.len() == i,
            forall|j: int|
                0 <= j < i ==> #[trigger] writes[j] == spec_descriptor_write(
                    desc_sets[j],
                    uniform_buffers[j],
                    range,
                ),
        decreases desc_sets.len() - i,
    {
        writes.push(
            DescriptorWrite {
                dst_set: desc_sets[i],
                dst_binding: 0,
                dst_array_element: 0,
                descriptor_count: 1,
                descriptor_type: DESCRIPTOR_TYPE_UNIFORM_BUFFER,
                buffer: uniform_buffers[i],
                offset: 0,
                range,
            },
        );
        i += 1;
    }
    Some(writes)
}

/// The render pass: one colour attachment of one sample, cleared when the
/// pass begins, stored when it ends and left ready to present; one graphics
/// subpass that renders to it, which waits for the colour-attachment output
/// of what came before.
#[derive(Clone, Copy, Debug, PartialEq, Eq, Structural)]
pub struct RenderPassConfig {
    pub format: i32,
    pub samples: u32,
    pub load_op: i32,
    pub store_op: i32,
    pub stencil_load_op: i32,
    pub stencil_store_op: i32,
    pub initial_layout: i32,
    pub final_layout: i32,
    pub attachment: u32,
    pub attachment_layout: i32,
    pub pipeline_bind_point: i32,
    pub src_subpass: u32,
    pub dst_subpass: u32,
    pub src_stage_mask: u32,
    pub src_access_mask: u32,
    pub dst_stage_mask: u32,
    pub dst_access_mask: u32,
}

/// The render pass for a swapchain of the given format.
pub open spec fn spec_render_pass(swapchain_format: i32) -> RenderPassConfig {
    RenderPassConfig {
        format: swapchain_format,
        samples: SAMPLE_COUNT_1,
        load_op: ATTACHMENT_LOAD_OP_CLEAR,
        store_op: ATTACHMENT_STORE_OP_STORE,
        stencil_load_op: ATTACHMENT_LOAD_OP_DONT_CARE,
        stencil_store_op: ATTACHMENT_STORE_OP_DONT_CARE,
        initial_layout: IMAGE_LAYOUT_UNDEFINED,
        final_layout: IMAGE_LAYOUT_PRESENT_SRC,
        attachment: 0,
        attachment_layout: IMAGE_LAYOUT_COLOR_ATTACHMENT_OPTIMAL,
        pipeline_bind_point: PIPELINE_BIND_POINT_GRAPHICS,
        src_subpass: SUBPASS_EXTERNAL,
        dst_subpass: 0,
        src_stage_mask: PIPELINE_STAGE_COLOR_ATTACHMENT_OUTPUT,
        src_access_mask: 0,
        dst_stage_mask: PIPELINE_STAGE_COLOR_ATTACHMENT_OUTPUT,
        dst_access_mask: ACCESS_COLOR_ATTACHMENT_WRITE,
    }
}

/// Describes the render pass for a swapchain of the given format.
pub fn create_render_pass(swapchain_format: i32) -> (config: RenderPassConfig)
    ensures
        config == spec_render_pass(swapchain_format),
{
    RenderPassConfig {
        format: swapchain_format,
        samples: SAMPLE_COUNT_1,
        load_op: ATTACHMENT_LOAD_OP_CLEAR,
        store_op: ATTACHMENT_STORE_OP_STORE,
        stencil_load_op: ATTACHMENT_LOAD_OP_DONT_CARE,
        stencil_store_op: ATTACHMENT_STORE_OP_DONT_CARE,
        initial_layout: IMAGE_LAYOUT_UNDEFINED,
        final_layout: IMAGE_LAYOUT_PRESENT_SRC,
        attachment: 0,
        attachment_layout: IMAGE_LAYOUT_COLOR_ATTACHMENT_OPTIMAL,
        pipeline_bind_point: PIPELINE_BIND_POINT_GRAPHICS,
        src_subpass: SUBPASS_EXTERNAL,
        dst_subpass: 0,
        src_stage_mask: PIPELINE_STAGE_COLOR_ATTACHMENT_OUTPUT,
        src_access_mask: 0,
        dst_stage_mask: PIPELINE_STAGE_COLOR_ATTACHMENT_OUTPUT,
        dst_access_mask: ACCESS_COLOR_ATTACHMENT_WRITE,
    }
}

} // verus!
