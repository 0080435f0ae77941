use slsh_engine::resources::{
    cleanup_swapchain, create_framebuffers, destroy_all, destroy_mesh, destroy_pipelines,
    teardown, MeshHandles,
    RendererResources, Resource, Swapchain, TeardownStep,
};
use slsh_engine::swapchain::{Extent2D, SurfaceFormat};

const FORMAT: SurfaceFormat = SurfaceFormat { format: 44, color_space: 0 };
const EXTENT: Extent2D = Extent2D { width: 640, height: 480 };

fn destroy(resource: Resource, handle: u64) -> TeardownStep {
    TeardownStep::Destroy { resource, handle }
}

fn swapchain() -> Swapchain {
    Swapchain::assemble(50, FORMAT, EXTENT, vec![1, 2, 3], vec![11, 12, 13], vec![21, 22, 23])
        .unwrap()
}

#[test]
fn each_view_gets_a_framebuffer_of_the_swapchain_extent() {
    let configs = create_framebuffers(&vec![11, 12, 13], EXTENT);
    assert_eq!(configs.len(), 3);
    for (config, view) in configs.iter().zip([11u64, 12, 13]) {
        assert_eq!(config.attachment, view);
        assert_eq!(config.width, 640);
        assert_eq!(config.height, 480);
        assert_eq!(config.layers, 1);
    }
    assert!(create_framebuffers(&Vec::new(), EXTENT).is_empty());
}

#[test]
fn images_views_and_framebuffers_are_equal_in_number() {
    let swapchain = swapchain();
    assert!(swapchain.is_wf());
    assert_eq!(swapchain.image_count(), 3);
    assert_eq!(swapchain.handle(), 50);
    assert_eq!(swapchain.format(), FORMAT);
    assert_eq!(swapchain.extent(), EXTENT);
    for index in 0..3usize {
        assert_eq!(swapchain.image(index), Some(1 + index as u64));
        assert_eq!(swapchain.image_view(index), Some(11 + index as u64));
        assert_eq!(swapchain.framebuffer(index), Some(21 + index as u64));
    }
    assert_eq!(swapchain.image(3), None);
    assert_eq!(swapchain.image_view(3), None);
    assert_eq!(swapchain.framebuffer(3), None);
    let empty = Swapchain::assemble(1, FORMAT, EXTENT, vec![], vec![], vec![]).unwrap();
    assert_eq!(empty.image_count(), 0);
}

#[test]
fn a_swapchain_with_unequal_counts_is_not_assembled() {
    assert!(Swapchain::assemble(1, FORMAT, EXTENT, vec![1, 2], vec![11], vec![21, 22]).is_none());
    assert!(Swapchain::assemble(1, FORMAT, EXTENT, vec![1, 2], vec![11, 12], vec![21]).is_none());
    assert!(Swapchain::assemble(1, FORMAT, EXTENT, vec![1], vec![11, 12], vec![21, 22]).is_none());
    assert!(Swapchain::assemble(1, FORMAT, EXTENT, vec![], vec![], vec![21]).is_none());
}

fn mesh(base: u64) -> MeshHandles {
    MeshHandles {
        vertex_buffer: base + 1,
        vertex_buffer_memory: base + 2,
        index_buffer: base + 3,
        index_buffer_memory: base + 4,
        pipeline_layout: base + 5,
        pipeline: base + 6,
    }
}

#[test]
fn a_swapchain_is_torn_down_children_first() {
    let mut steps = Vec::new();
    cleanup_swapchain(&mut steps, &swapchain(), &vec![mesh(200), mesh(300)], 60, 70);
    assert_eq!(
        steps,
        vec![
            TeardownStep::WaitDeviceIdle,
            destroy(Resource::Framebuffer, 21),
            destroy(Resource::Framebuffer, 22),
            destroy(Resource::Framebuffer, 23),
            destroy(Resource::Pipeline, 206),
            destroy(Resource::Pipeline, 306),
            destroy(Resource::RenderPass, 60),
            destroy(Resource::CommandBuffers, 70),
            destroy(Resource::ImageView, 11),
            destroy(Resource::ImageView, 12),
            destroy(Resource::ImageView, 13),
            destroy(Resource::Swapchain, 50),
        ]
    );
}

#[test]
fn the_pipelines_go_before_the_render_pass_and_the_swapchain() {
    let mut steps = Vec::new();
    cleanup_swapchain(&mut steps, &swapchain(), &vec![mesh(200)], 60, 70);
    let at = |step: TeardownStep| steps.iter().position(|other| *other == step).unwrap();
    let pipeline = at(destroy(Resource::Pipeline, 206));
    assert!(at(destroy(Resource::Framebuffer, 23)) < pipeline);
    assert!(pipeline < at(destroy(Resource::RenderPass, 60)));
    assert!(at(destroy(Resource::RenderPass, 60)) < at(destroy(Resource::CommandBuffers, 70)));
    assert!(at(destroy(Resource::CommandBuffers, 70)) < at(destroy(Resource::ImageView, 11)));
    assert!(at(destroy(Resource::ImageView, 13)) < at(destroy(Resource::Swapchain, 50)));
    assert_eq!(at(destroy(Resource::Swapchain, 50)), steps.len() - 1);

    let mut only = vec![TeardownStep::WaitDeviceIdle];
    destroy_pipelines(&mut only, &vec![mesh(200), mesh(300)]);
    assert_eq!(
        only,
        vec![
            TeardownStep::WaitDeviceIdle,
            destroy(Resource::Pipeline, 206),
            destroy(Resource::Pipeline, 306)
        ]
    );
}

#[test]
fn destroying_all_keeps_what_was_planned_before() {
    let mut steps = vec![TeardownStep::WaitDeviceIdle];
    destroy_all(&mut steps, Resource::Fence, &vec![5, 6]);
    destroy_all(&mut steps, Resource::Buffer, &Vec::new());
    assert_eq!(
        steps,
        vec![TeardownStep::WaitDeviceIdle, destroy(Resource::Fence, 5), destroy(Resource::Fence, 6)]
    );
}

#[test]
fn a_mesh_frees_its_buffers_before_the_layout_of_its_pipeline() {
    let mesh = MeshHandles {
        vertex_buffer: 1,
        vertex_buffer_memory: 2,
        index_buffer: 3,
        index_buffer_memory: 4,
        pipeline_layout: 5,
        pipeline: 6,
    };
    let mut steps = Vec::new();
    destroy_mesh(&mut steps, &mesh);
    assert_eq!(
        steps,
        vec![
            destroy(Resource::Buffer, 3),
            destroy(Resource::Memory, 4),
            destroy(Resource::Buffer, 1),
            destroy(Resource::Memory, 2),
            destroy(Resource::PipelineLayout, 5),
        ]
    );
}

#[test]
fn the_renderer_is_torn_down_after_the_device_is_idle_and_device_last() {
    let resources = RendererResources {
        instance: 1,
        surface: 2,
        device: 3,
        swapchain: swapchain(),
        command_pool: 70,
        render_pass: 60,
        image_available: vec![101, 102],
        render_finished: vec![111, 112],
        is_rendering: vec![121, 122],
        desc_set_layout: 80,
        desc_pool: 81,
        uniform_buffers: vec![131, 132],
        uniform_buffers_memories: vec![141, 142],
        meshes: vec![
            MeshHandles {
                vertex_buffer: 201,
                vertex_buffer_memory: 202,
                index_buffer: 203,
                index_buffer_memory: 204,
                pipeline_layout: 205,
                pipeline: 206,
            },
            MeshHandles {
                vertex_buffer: 301,
                vertex_buffer_memory: 302,
                index_buffer: 303,
                index_buffer_memory: 304,
                pipeline_layout: 305,
                pipeline: 306,
            },
        ],
    };
    let steps = teardown(&resources);
    let expected = vec![
        TeardownStep::WaitDeviceIdle,
        destroy(Resource::Semaphore, 101),
        destroy(Resource::Semaphore, 102),
        destroy(Resource::Semaphore, 111),
        destroy(Resource::Semaphore, 112),
        destroy(Resource::Fence, 121),
        destroy(Resource::Fence, 122),
        TeardownStep::WaitDeviceIdle,
        destroy(Resource::Framebuffer, 21),
        destroy(Resource::Framebuffer, 22),
        destroy(Resource::Framebuffer, 23),
        destroy(Resource::Pipeline, 206),
        destroy(Resource::Pipeline, 306),
        destroy(Resource::RenderPass, 60),
        destroy(Resource::CommandBuffers, 70),
        destroy(Resource::ImageView, 11),
        destroy(Resource::ImageView, 12),
        destroy(Resource::ImageView, 13),
        destroy(Resource::Swapchain, 50),
        destroy(Resource::Buffer, 131),
        destroy(Resource::Buffer, 132),
        destroy(Resource::Memory, 141),
        destroy(Resource::Memory, 142),
        destroy(Resource::Buffer, 203),
        destroy(Resource::Memory, 204),
        destroy(Resource::Buffer, 201),
        destroy(Resource::Memory, 202),
        destroy(Resource::PipelineLayout, 205),
        destroy(Resource::Buffer, 303),
        destroy(Resource::Memory, 304),
        destroy(Resource::Buffer, 301),
        destroy(Resource::Memory, 302),
        destroy(Resource::PipelineLayout, 305),
        destroy(Resource::DescriptorPool, 81),
        destroy(Resource::DescriptorSetLayout, 80),
        destroy(Resource::CommandPool, 70),
        destroy(Resource::Device, 3),
        destroy(Resource::Surface, 2),
        destroy(Resource::Instance, 1),
    ];
    assert_eq!(steps, expected);
    assert_eq!(steps[0], TeardownStep::WaitDeviceIdle);
    let device_at = steps.iter().position(|step| *step == destroy(Resource::Device, 3)).unwrap();
    assert_eq!(device_at, steps.len() - 3);
    // Every handle goes once.
    for (at, step) in steps.iter().enumerate() {
        if *step != TeardownStep::WaitDeviceIdle && *step != destroy(Resource::CommandPool, 70) {
            assert!(steps[at + 1..].iter().all(|later| later != step));
        }
    }
}
