//! How the renderer sets its two meshes up and draws them.
//!
//! The grid is drawn with the per-frame uniform block, the crosshair
//! overlay with push constants.

use vstd::prelude::*;
use crate::commands::MeshDraw;
use crate::error::SetupError;
use crate::memory::{plan_upload, spec_is_upload_plan, UploadPlan};
use crate::pipeline::{
    create_pipeline_layout, pipeline_config, spec_is_pipeline_config, spec_pipeline_layout,
    MeshKind, PipelineConfig, PipelineLayoutConfig, PushConstantRange, VertexFormat,
    PUSH_CONSTANTS_SIZE,
};
use crate::swapchain::Extent2D;
use crate::vulkan::{
    BUFFER_USAGE_INDEX_BUFFER, BUFFER_USAGE_VERTEX_BUFFER, SHADER_STAGE_FRAGMENT,
    SHADER_STAGE_VERTEX,
};

verus! {

/// The position of the grid in the renderer's list of meshes.
pub const GRID_MESH: usize = 0;

/// The position of the crosshair in the renderer's list of meshes.
pub const CROSSHAIR_MESH: usize = 1;

/// How a mesh's pipeline is set up.
#[derive(Clone, Copy, Debug, PartialEq, Eq)]
pub struct MeshSetup {
    pub kind: MeshKind,
    pub format: VertexFormat,
    pub push_constants: Option<PushConstantRange>,
    pub uses_descriptor_set: bool,
}

/// The push-constant range of the overlay: the whole block, seen by the
/// vertex and the fragment stage.
pub open spec fn spec_overlay_push_constants() -> PushConstantRange {
    PushConstantRange {
        stage_flags: SHADER_STAGE_VERTEX | SHADER_STAGE_FRAGMENT,
        offset: 0,
        size: PUSH_CONSTANTS_SIZE as u32,
    }
}

/// The push-constant range of the overlay.
pub fn overlay_push_constants() -> (range: PushConstantRange)
    ensures
        range == spec_overlay_push_constants(),
{
    PushConstantRange {
        stage_flags: SHADER_STAGE_VERTEX | SHADER_STAGE_FRAGMENT,
        offset: 0,
        size: PUSH_CONSTANTS_SIZE as u32,
    }
}

/// The grid: lines of 2D positions, drawn with the uniform block.
pub open spec fn spec_grid_setup() -> MeshSetup {
    MeshSetup {
        kind: MeshKind::Wireframe,
        format: VertexFormat::Position2D,
        push_constants: None,
        uses_descriptor_set: true,
    }
}

/// The crosshair: lines of 2D positions, drawn with push constants.
pub open spec fn spec_crosshair_setup() -> MeshSetup {
    MeshSetup {
        kind: MeshKind::Wireframe,
        format: VertexFormat::Position2D,
        push_constants: Some(spec_overlay_push_constants()),
        uses_descriptor_set: false,
    }
}

/// The setups of the renderer's meshes, in the order of its list: the grid,
/// then the crosshair.
pub fn mesh_setups() -> (setups: Vec<MeshSetup>)
    ensures
        setups@ == seq![spec_grid_setup(), spec_crosshair_setup()],
{
    let mut setups: Vec<MeshSetup> = Vec::new();
    setups.push(
        MeshSetup {
            kind: MeshKind::Wireframe,
            format: VertexFormat::Position2D,
            push_constants: None,
            uses_descriptor_set: true,
        },
    );
    setups.push(
        MeshSetup {
            kind: MeshKind::Wireframe,
            format: VertexFormat::Position2D,
            push_constants: Some(overlay_push_constants()),
            uses_descriptor_set: false,
        },
    );
    assert(setups@ =~= seq![spec_grid_setup(), spec_crosshair_setup()]);
    setups
}

/// What drawing a mesh of `index_count` indices takes under `setup`.
pub fn mesh_draw(setup: &MeshSetup, index_count: u32) -> (draw: MeshDraw)
    ensures
        draw == (MeshDraw {
            index_count,
            push_constants: setup.push_constants,
            uses_descriptor_set: setup.uses_descriptor_set,
        }),
{
    MeshDraw {
        index_count,
        push_constants: setup.push_constants,
        uses_descriptor_set: setup.uses_descriptor_set,
    }
}

/// All that the GPU side of a mesh is made from: the uploads of its
/// vertices and indices, the number of indices to draw, and its pipeline
/// with the pipeline's layout.
pub struct MeshPlan {
    pub vertex_upload: UploadPlan,
    pub index_upload: UploadPlan,
    pub index_count: u32,
    pub pipeline_layout: PipelineLayoutConfig,
    pub pipeline: PipelineConfig,
}

/// The size in bytes of one 32-bit float.
pub const FLOAT_SIZE: usize = 4;

/// The size in bytes of one 16-bit index.
pub const INDEX_SIZE: usize = 2;

/// Why a mesh of `floats` vertex coordinates and `indices` indices, with
/// shaders of the given lengths in bytes, cannot be planned, if it cannot:
/// a size that does not fit comes before a shader of a bad length.
pub open spec fn spec_mesh_plan_error(
    floats: int,
    indices: int,
    vert_len: int,
    frag_len: int,
) -> Option<SetupError> {
    if floats * FLOAT_SIZE > u64::MAX || indices * INDEX_SIZE > u64::MAX || indices > u32::MAX {
        Some(SetupError::SizeOverflow)
    } else if vert_len % 4 != 0 || frag_len % 4 != 0 {
        Some(SetupError::ShaderLength)
    } else {
        None
    }
}

/// Plans the GPU side of a mesh of `floats` vertex coordinates and
/// `indices` indices: both are uploaded through staging, the vertices into
/// a vertex buffer and the indices into an index buffer; the pipeline's
/// layout takes the push constants of `setup` and, if `setup` reads the
/// uniform block, the descriptor-set layout; the pipeline is described from
/// the two shaders.
pub fn plan_mesh(
    setup: &MeshSetup,
    floats: usize,
    indices: usize,
    desc_set_layout: u64,
    vert_shader_compiled: &[u8],
    frag_shader_compiled: &[u8],
    extent: Extent2D,
) -> (planned: Result<MeshPlan, SetupError>)
    ensures
        match planned {
            Ok(plan) => {
                &&& spec_mesh_plan_error(
                    floats as int,
                    indices as int,
                    vert_shader_compiled.len() as int,
                    frag_shader_compiled.len() as int,
                ) is None
                &&& spec_is_upload_plan(
                    plan.vertex_upload,
                    floats * FLOAT_SIZE,
                    BUFFER_USAGE_VERTEX_BUFFER,
                )
                &&& spec_is_upload_plan(
                    plan.index_upload,
                    indices * INDEX_SIZE,
                    BUFFER_USAGE_INDEX_BUFFER,
                )
                &&& plan.index_count == indices
                &&& plan.pipeline_layout == spec_pipeline_layout(
                    setup.push_constants,
                    if setup.uses_descriptor_set {
                        Some(desc_set_layout)
                    } else {
                        None
                    },
                )
                &&& spec_is_pipeline_config(
                    plan.pipeline,
                    vert_shader_compiled@,
                    frag_shader_compiled@,
                    setup.format,
                    setup.kind,
                    extent,
                )
            },
            Err(e) => Some(e) == spec_mesh_plan_error(
                floats as int,
                indices as int,
                vert_shader_compiled.len() as int,
                frag_shader_compiled.len() as int,
            ),
        },
{
    let vertex_upload = match plan_upload(floats, FLOAT_SIZE, BUFFER_USAGE_VERTEX_BUFFER) {
        Ok(plan) => plan,
        Err(e) => {
            return Err(e);
        },
    };
    let index_upload = match plan_upload(indices, INDEX_SIZE, BUFFER_USAGE_INDEX_BUFFER) {
        Ok(plan) => plan,
        Err(e) => {
            return Err(e);
        },
    };
    if indices > u32::MAX as usize {
        return Err(SetupError::SizeOverflow);
    }
    let set_layout = if setup.uses_descriptor_set {
        Some(desc_set_layout)
    } else {
        None
    };
    let pipeline_layout = create_pipeline_layout(setup.push_constants, set_layout);
    let pipeline = match pipeline_config(
        vert_shader_compiled,
        frag_shader_compiled,
        setup.format,
        setup.kind,
        extent,
    ) {
        Ok(config) => config,
        Err(e) => {
            return Err(e);
        },
    };
    Ok(
        MeshPlan {
            vertex_upload,
            index_upload,
            index_count: indices as u32,
            pipeline_layout,
            pipeline,
        },
    )
}

} // verus!
