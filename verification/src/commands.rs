//! The commands of one frame, in the order in which they are recorded.

use vstd::prelude::*;
use crate::frame::RecordOrder;
use crate::pipeline::PushConstantRange;
use crate::swapchain::Extent2D;
use crate::vulkan::INDEX_TYPE_UINT16;

verus! {

/// The bit pattern of the 32-bit float 0.0.
pub const FLOAT_ZERO_BITS: u32 = 0x0000_0000;

/// The bit pattern of the 32-bit float 1.0.
pub const FLOAT_ONE_BITS: u32 = 0x3F80_0000;

/// A colour by the bit patterns of its four 32-bit float channels.
#[derive(Clone, Copy, Debug, PartialEq, Eq, Structural)]
pub struct ClearColor {
    pub red: u32,
    pub green: u32,
    pub blue: u32,
    pub alpha: u32,
}

/// One command of a frame's command buffer. A mesh is named by its
/// position in the renderer's list of meshes, a descriptor set by its frame
/// slot, a framebuffer by the index of its image.
#[derive(Clone, Copy, Debug, PartialEq, Eq, Structural)]
pub enum Command {
    ResetCommandBuffer,
    BeginCommandBuffer,
    /// Begin the render pass on the whole of the framebuffer, which is
    /// cleared to `clear`; the commands of the pass are recorded inline.
    BeginRenderPass { framebuffer: u32, render_area: Extent2D, clear: ClearColor },
    BindPipeline { mesh: usize },
    /// Bind the mesh's vertex buffer to binding 0, from offset 0.
    BindVertexBuffer { mesh: usize },
    /// Bind the mesh's index buffer from offset 0.
    BindIndexBuffer { mesh: usize, index_type: i32 },
    /// Push the overlay's constants into the range of the mesh's layout.
    PushConstants { mesh: usize, range: PushConstantRange },
    /// Bind the descriptor set of frame slot `set` as set 0 of the mesh's
    /// layout.
    BindDescriptorSet { mesh: usize, set: usize },
    /// Draw `index_count` indices from the first, once.
    DrawIndexed { index_count: u32, instance_count: u32 },
    EndRenderPass,
    EndCommandBuffer,
}

/// What drawing a mesh needs besides its buffers and pipeline.
#[derive(Clone, Copy, Debug, PartialEq, Eq)]
pub struct MeshDraw {
    pub index_count: u32,
    /// The range of push constants, if the mesh's pipeline takes any.
    pub push_constants: Option<PushConstantRange>,
    /// Whether the mesh's pipeline reads the per-frame uniform block.
    pub uses_descriptor_set: bool,
}

/// Opaque black.
pub open spec fn spec_clear_color() -> ClearColor {
    ClearColor {
        red: FLOAT_ZERO_BITS,
        green: FLOAT_ZERO_BITS,
        blue: FLOAT_ZERO_BITS,
        alpha: FLOAT_ONE_BITS,
    }
}

/// The commands that draw mesh `mesh` in frame slot `slot`: bind the
/// pipeline and the two buffers, push constants and bind the slot's
/// descriptor set as far as the mesh takes them, draw.
pub open spec fn spec_mesh_commands(mesh: usize, draw: MeshDraw, slot: usize) -> Seq<Command> {
    seq![
        Command::BindPipeline { mesh },
        Command::BindVertexBuffer { mesh },
        Command::BindIndexBuffer { mesh, index_type: INDEX_TYPE_UINT16 },
    ] + (match draw.push_constants {
        Some(range) => seq![Command::PushConstants { mesh, range }],
        None => Seq::empty(),
    }) + (if draw.uses_descriptor_set {
        seq![Command::BindDescriptorSet { mesh, set: slot }]
    } else {
        Seq::empty()
    }) + seq![Command::DrawIndexed { index_count: draw.index_count, instance_count: 1 }]
}

/// The commands that draw the first `n` meshes, mesh after mesh.
pub open spec fn spec_meshes_commands(draws: Seq<MeshDraw>, slot: usize, n: int) -> Seq<Command>
    decreases n,
{
    if n <= 0 {
        Seq::empty()
    } else {
        spec_meshes_commands(draws, slot, n - 1) + spec_mesh_commands(
            (n - 1) as usize,
            draws[n - 1],
            slot,
        )
    }
}

/// The commands of a frame: reset and begin the command buffer, begin the
/// render pass, draw every mesh, end the pass, end the command buffer.
pub open spec fn spec_frame_commands(
    draws: Seq<MeshDraw>,
    order: RecordOrder,
    extent: Extent2D,
) -> Seq<Command> {
    seq![
        Command::ResetCommandBuffer,
        Command::BeginCommandBuffer,
        Command::BeginRenderPass {
            framebuffer: order.image_index,
            render_area: extent,
            clear: spec_clear_color(),
        },
    ] + spec_meshes_commands(draws, order.slot, draws.len() as int) + seq![
        Command::EndRenderPass,
        Command::EndCommandBuffer,
    ]
}

/// Adds the commands that draw one mesh.
pub fn record_draw_commands(commands: &mut Vec<Command>, mesh: usize, draw: &MeshDraw, slot: usize)
    ensures
        final(commands)@ == old(commands)@ + spec_mesh_commands(mesh, *draw, slot),
{
    commands.push(Command::BindPipeline { mesh });
    commands.push(Command::BindVertexBuffer { mesh });
    commands.push(Command::BindIndexBuffer { mesh, index_type: INDEX_TYPE_UINT16 });
    if let Some(range) = draw.push_constants {
        commands.push(Command::PushConstants { mesh, range });
    }
    if draw.uses_descriptor_set {
        commands.push(Command::BindDescriptorSet { mesh, set: slot });
    }
    commands.push(Command::DrawIndexed { index_count: draw.index_count, instance_count: 1 });
    assert(commands@ =~= old(commands)@ + spec_mesh_commands(mesh, *draw, slot));
}

/// The commands to record for the frame that `order` names.
pub fn record_commands_to_buffer(
    draws: &Vec<MeshDraw>,
    order: RecordOrder,
    extent: Extent2D,
) -> (commands: Vec<Command>)
    ensures
        commands@ == spec_frame_commands(draws@, order, extent),
{
    let clear = ClearColor {
        red: FLOAT_ZERO_BITS,
        green: FLOAT_ZERO_BITS,
        blue: FLOAT_ZERO_BITS,
        alpha: FLOAT_ONE_BITS,
    };
    let mut commands: Vec<Command> = Vec::new();
    commands.push(Command::ResetCommandBuffer);
    commands.push(Command::BeginCommandBuffer);
    commands.push(
        Command::BeginRenderPass { framebuffer: order.image_index, render_area: extent, clear },
    );
    let ghost head = commands@;
    let mut i: usize = 0;
    while i < draws.len()
        invariant
            0 <= i <= draws.len(),
            commands@ == head + spec_meshes_commands(draws@, order.slot, i as int),
        decreases draws.len() - i,
    {
        record_draw_commands(&mut commands, i, &draws[i], order.slot);
        i += 1;
        assert(commands@ =~= head + spec_meshes_commands(draws@, order.slot, i as int));
    }
    commands.push(Command::EndRenderPass);
    commands.push(Command::EndCommandBuffer);
    assert(commands@ =~= spec_frame_commands(draws@, order, extent));
    commands
}

} // verus!
