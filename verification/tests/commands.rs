use slsh_engine::commands::{
    record_commands_to_buffer, record_draw_commands, ClearColor, Command, MeshDraw,
    FLOAT_ONE_BITS, FLOAT_ZERO_BITS,
};
use slsh_engine::frame::RecordOrder;
use slsh_engine::renderer::{
    mesh_draw, mesh_setups, overlay_push_constants, CROSSHAIR_MESH, GRID_MESH,
};
use slsh_engine::pipeline::{MeshKind, VertexFormat};
use slsh_engine::swapchain::Extent2D;
use slsh_engine::vulkan::INDEX_TYPE_UINT16;

#[test]
fn the_clear_colour_is_opaque_black() {
    assert_eq!(f32::from_bits(FLOAT_ZERO_BITS), 0.0);
    assert_eq!(f32::from_bits(FLOAT_ONE_BITS), 1.0);
}

#[test]
fn a_mesh_is_bound_then_drawn() {
    let mut commands = vec![Command::BeginCommandBuffer];
    let draw = MeshDraw { index_count: 6, push_constants: None, uses_descriptor_set: false };
    record_draw_commands(&mut commands, 3, &draw, 1);
    assert_eq!(
        commands,
        vec![
            Command::BeginCommandBuffer,
            Command::BindPipeline { mesh: 3 },
            Command::BindVertexBuffer { mesh: 3 },
            Command::BindIndexBuffer { mesh: 3, index_type: INDEX_TYPE_UINT16 },
            Command::DrawIndexed { index_count: 6, instance_count: 1 },
        ]
    );
}

#[test]
fn the_renderer_draws_the_grid_and_then_the_crosshair() {
    let setups = mesh_setups();
    assert_eq!(setups.len(), 2);
    assert_eq!(setups[GRID_MESH].kind, MeshKind::Wireframe);
    assert_eq!(setups[GRID_MESH].format, VertexFormat::Position2D);
    assert_eq!(setups[GRID_MESH].push_constants, None);
    assert!(setups[GRID_MESH].uses_descriptor_set);
    assert_eq!(setups[CROSSHAIR_MESH].push_constants, Some(overlay_push_constants()));
    assert!(!setups[CROSSHAIR_MESH].uses_descriptor_set);
    let range = overlay_push_constants();
    assert_eq!((range.stage_flags, range.offset, range.size), (0x11, 0, 80));

    let draws = vec![mesh_draw(&setups[0], 260), mesh_draw(&setups[1], 16)];
    let extent = Extent2D { width: 1024, height: 768 };
    let commands = record_commands_to_buffer(&draws, RecordOrder { slot: 1, image_index: 2 }, extent);
    assert_eq!(
        commands,
        vec![
            Command::ResetCommandBuffer,
            Command::BeginCommandBuffer,
            Command::BeginRenderPass {
                framebuffer: 2,
                render_area: extent,
                clear: ClearColor { red: 0, green: 0, blue: 0, alpha: 0x3F80_0000 },
            },
            Command::BindPipeline { mesh: 0 },
            Command::BindVertexBuffer { mesh: 0 },
            Command::BindIndexBuffer { mesh: 0, index_type: INDEX_TYPE_UINT16 },
            Command::BindDescriptorSet { mesh: 0, set: 1 },
            Command::DrawIndexed { index_count: 260, instance_count: 1 },
            Command::BindPipeline { mesh: 1 },
            Command::BindVertexBuffer { mesh: 1 },
            Command::BindIndexBuffer { mesh: 1, index_type: INDEX_TYPE_UINT16 },
            Command::PushConstants { mesh: 1, range },
            Command::DrawIndexed { index_count: 16, instance_count: 1 },
            Command::EndRenderPass,
            Command::EndCommandBuffer,
        ]
    );
}

#[test]
fn a_frame_without_meshes_still_clears() {
    let extent = Extent2D { width: 1, height: 1 };
    let commands =
        record_commands_to_buffer(&Vec::new(), RecordOrder { slot: 0, image_index: 0 }, extent);
    assert_eq!(commands.len(), 5);
    assert_eq!(commands[3], Command::EndRenderPass);
    assert_eq!(commands[4], Command::EndCommandBuffer);
}

#[test]
fn constants_are_pushed_before_the_descriptor_set_is_bound() {
    let draw = MeshDraw {
        index_count: 3,
        push_constants: Some(overlay_push_constants()),
        uses_descriptor_set: true,
    };
    let mut commands = Vec::new();
    record_draw_commands(&mut commands, 0, &draw, 0);
    assert_eq!(commands.len(), 6);
    assert_eq!(commands[3], Command::PushConstants { mesh: 0, range: overlay_push_constants() });
    assert_eq!(commands[4], Command::BindDescriptorSet { mesh: 0, set: 0 });
}
