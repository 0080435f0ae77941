use slsh_engine::error::SetupError;
use slsh_engine::memory::{copy_buffers, UploadStep};
use slsh_engine::pipeline::{create_desc_sets, PushConstantRange};
use slsh_engine::renderer::{mesh_setups, plan_mesh, FLOAT_SIZE, INDEX_SIZE};
use slsh_engine::swapchain::Extent2D;
use slsh_engine::vulkan::{
    BUFFER_USAGE_INDEX_BUFFER, BUFFER_USAGE_TRANSFER_DST, BUFFER_USAGE_VERTEX_BUFFER,
    COMMAND_BUFFER_USAGE_ONE_TIME_SUBMIT, TOPOLOGY_LINE_LIST,
};

const EXTENT: Extent2D = Extent2D { width: 1024, height: 768 };

#[test]
fn the_grid_is_planned_with_the_uniform_block() {
    let setups = mesh_setups();
    let vert = [0u8; 16];
    let frag = [0u8; 8];
    // 65 lines each way: 260 vertices of two floats, 260 indices.
    let plan = plan_mesh(&setups[0], 520, 260, 99, &vert, &frag, EXTENT).unwrap();
    assert_eq!((FLOAT_SIZE, INDEX_SIZE), (4, 2));
    assert_eq!(plan.vertex_upload.size_bytes, 2080);
    assert_eq!(plan.vertex_upload.staging.size, 2080);
    assert_eq!(plan.vertex_upload.mapped.offset, 0);
    assert_eq!(plan.vertex_upload.mapped.size, 2080);
    assert_eq!(plan.vertex_upload.copy, copy_buffers(2080));
    assert_eq!(
        plan.vertex_upload.target.usage,
        BUFFER_USAGE_VERTEX_BUFFER | BUFFER_USAGE_TRANSFER_DST
    );
    assert_eq!(plan.vertex_upload.steps.len(), 8);
    assert_eq!(plan.vertex_upload.steps[4], UploadStep::WaitQueueIdle);
    assert_eq!(plan.index_upload.size_bytes, 520);
    assert_eq!(
        plan.index_upload.target.usage,
        BUFFER_USAGE_INDEX_BUFFER | BUFFER_USAGE_TRANSFER_DST
    );
    assert_eq!(plan.index_count, 260);
    assert_eq!(plan.pipeline_layout.push_constant_range, None);
    assert_eq!(plan.pipeline_layout.push_constant_range_count, 0);
    assert_eq!(plan.pipeline_layout.set_layout, Some(99));
    assert_eq!(plan.pipeline_layout.set_layout_count, 1);
    assert_eq!(plan.pipeline.vertex_shader.words.len(), 4);
    assert_eq!(plan.pipeline.fragment_shader.words.len(), 2);
    assert_eq!(plan.pipeline.vertex_layout.stride, 8);
    assert_eq!(plan.pipeline.fixed.topology, TOPOLOGY_LINE_LIST);
    assert_eq!(plan.pipeline.fixed.viewport_extent, EXTENT);
}

#[test]
fn the_crosshair_is_planned_with_push_constants() {
    let setups = mesh_setups();
    let code = [0u8; 4];
    let plan = plan_mesh(&setups[1], 16, 16, 99, &code, &code, EXTENT).unwrap();
    assert_eq!(plan.vertex_upload.size_bytes, 64);
    assert_eq!(plan.index_upload.size_bytes, 32);
    assert_eq!(plan.index_count, 16);
    assert_eq!(
        plan.pipeline_layout.push_constant_range,
        Some(PushConstantRange { stage_flags: 0x11, offset: 0, size: 80 })
    );
    assert_eq!(plan.pipeline_layout.push_constant_range_count, 1);
    assert_eq!(plan.pipeline_layout.set_layout, None);
    assert_eq!(plan.pipeline_layout.set_layout_count, 0);
}

#[test]
fn a_mesh_with_a_bad_shader_or_size_is_not_planned() {
    let setups = mesh_setups();
    let good = [0u8; 4];
    let bad = [0u8; 13];
    assert_eq!(
        plan_mesh(&setups[0], 8, 4, 1, &bad, &good, EXTENT).err(),
        Some(SetupError::ShaderLength)
    );
    assert_eq!(
        plan_mesh(&setups[0], 8, 4, 1, &good, &bad, EXTENT).err(),
        Some(SetupError::ShaderLength)
    );
    if usize::BITS == 64 {
        assert_eq!(
            plan_mesh(&setups[0], usize::MAX, 4, 1, &bad, &good, EXTENT).err(),
            Some(SetupError::SizeOverflow)
        );
        assert_eq!(
            plan_mesh(&setups[0], 8, u32::MAX as usize + 1, 1, &good, &good, EXTENT).err(),
            Some(SetupError::SizeOverflow)
        );
    }
    assert_eq!(SetupError::SizeOverflow.message(), "Failed to convert a size");
}

#[test]
fn the_copy_is_of_the_whole_from_the_beginning() {
    let copy = copy_buffers(48);
    assert_eq!(copy.usage, COMMAND_BUFFER_USAGE_ONE_TIME_SUBMIT);
    assert_eq!((copy.src_offset, copy.dst_offset, copy.size), (0, 0, 48));
}

#[test]
fn every_slot_gets_a_set_of_the_same_layout() {
    assert_eq!(create_desc_sets(7, 2), vec![7, 7]);
    assert!(create_desc_sets(7, 0).is_empty());
}
