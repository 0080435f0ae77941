//! The GPU objects that the renderer owns, by their handles, and the order
//! in which they are destroyed.
//!
//! Every object lives within the life of the device that made it. Nothing
//! is destroyed before the device is idle, and the device is destroyed
//! after all that it made.

use vstd::prelude::*;
use crate::swapchain::{Extent2D, SurfaceFormat};

verus! {

/// What the framebuffer of one image view is created with.
#[derive(Clone, Copy, Debug, PartialEq, Eq, Structural)]
pub struct FramebufferConfig {
    pub attachment: u64,
    pub width: u32,
    pub height: u32,
    pub layers: u32,
}

/// The framebuffer of an image view: the view is its one attachment, it
/// has the swapchain's extent and one layer.
pub open spec fn spec_framebuffer(image_view: u64, extent: Extent2D) -> FramebufferConfig {
    FramebufferConfig {
        attachment: image_view,
        width: extent.width,
        height: extent.height,
        layers: 1,
    }
}

/// The parameters of the framebuffers, one for each image view and in the
/// views' order.
pub fn create_framebuffers(image_views: &Vec<u64>, extent: Extent2D) -> (configs: Vec<
    FramebufferConfig,
>)
    ensures
        configs.len() == image_views.len(),
        forall|i: int|
            0 <= i < image_views.len() ==> #[trigger] configs[i] == spec_framebuffer(
                image_views[i],
                extent,
            ),
{
    let mut configs: Vec<FramebufferConfig> = Vec::with_capacity(image_views.len());
    let mut i: usize = 0;
    while i < image_views.len()
        invariant
            0 <= i <= image_views.len(),
            configs.len() == i,
            forall|j: int|
                0 <= j < i ==> #[trigger] configs[j] == spec_framebuffer(image_views[j], extent),
        decreases image_views.len() - i,
    {
        configs.push(
            FramebufferConfig {
                attachment: image_views[i],
                width: extent.width,
                height: extent.height,
                layers: 1,
            },
        );
        i += 1;
    }
    configs
}

/// A swapchain with its images, their views and the views' framebuffers.
/// There are as many views and as many framebuffers as images.
pub struct Swapchain {
    handle: u64,
    format: SurfaceFormat,
    extent: Extent2D,
    images: Vec<u64>,
    image_views: Vec<u64>,
    framebuffers: Vec<u64>,
}

impl Swapchain {
    /// The swapchain's handle.
    pub closed spec fn spec_handle(&self) -> u64 {
        self.handle
    }

    /// The format of the swapchain's images.
    pub closed spec fn spec_format(&self) -> SurfaceFormat {
        self.format
    }

    /// The extent of the swapchain's images.
    pub closed spec fn spec_extent(&self) -> Extent2D {
        self.extent
    }

    /// The handles of the swapchain's images.
    pub closed spec fn spec_images(&self) -> Seq<u64> {
        self.images@
    }

    /// The handles of the images' views, in the images' order.
    pub closed spec fn spec_image_views(&self) -> Seq<u64> {
        self.image_views@
    }

    /// The handles of the views' framebuffers, in the views' order.
    pub closed spec fn spec_framebuffers(&self) -> Seq<u64> {
        self.framebuffers@
    }

    /// The images, the image views and the framebuffers are equal in
    /// number.
    pub open spec fn wf(&self) -> bool {
        &&& self.spec_image_views().len() == self.spec_images().len()
        &&& self.spec_framebuffers().len() == self.spec_images().len()
    }

    /// Puts a created swapchain together. `None` exactly when the images,
    /// the image views and the framebuffers are not equal in number.
    pub fn assemble(
        handle: u64,
        format: SurfaceFormat,
        extent: Extent2D,
        images: Vec<u64>,
        image_views: Vec<u64>,
        framebuffers: Vec<u64>,
    ) -> (made: Option<Self>)
        ensures
            made is Some <==> image_views.len() == images.len() && framebuffers.len()
                == images.len(),
            made matches Some(swapchain) ==> {
                &&& swapchain.wf()
                &&& swapchain.spec_handle() == handle
                &&& swapchain.spec_format() == format
                &&& swapchain.spec_extent() == extent
                &&& swapchain.spec_images() == images@
                &&& swapchain.spec_image_views() == image_views@
                &&& swapchain.spec_framebuffers() == framebuffers@
            },
    {
        if image_views.len() != images.len() || framebuffers.len() != images.len() {
            return None;
        }
        Some(Swapchain { handle, format, extent, images, image_views, framebuffers })
    }

    /// The swapchain's handle.
    pub fn handle(&self) -> (handle: u64)
        ensures
            handle == self.spec_handle(),
    {
        self.handle
    }

    /// The format of the swapchain's images.
    pub fn format(&self) -> (format: SurfaceFormat)
        ensures
            format == self.spec_format(),
    {
        self.format
    }

    /// The extent of the swapchain's images.
    pub fn extent(&self) -> (extent: Extent2D)
        ensures
            extent == self.spec_extent(),
    {
        self.extent
    }

    /// Tests [`Swapchain::wf`].
    pub fn is_wf(&self) -> (ok: bool)
        ensures
            ok == self.wf(),
    {
        self.image_views.len() == self.images.len() && self.framebuffers.len()
            == self.images.len()
    }

    /// The number of images, which is also the number of image views and
    /// of framebuffers.
    pub fn image_count(&self) -> (count: usize)
        requires
            self.wf(),
        ensures
            count == self.spec_images().len(),
            count == self.spec_image_views().len(),
            count == self.spec_framebuffers().len(),
    {
        self.images.len()
    }

    /// The handle of image `index`; `None` exactly when there is no such
    /// image.
    pub fn image(&self, index: usize) -> (handle: Option<u64>)
        ensures
            handle == if index < self.spec_images().len() {
                Some(self.spec_images()[index as int])
            } else {
                None
            },
    {
        if index < self.images.len() {
            Some(self.images[index])
        } else {
            None
        }
    }

    /// The handle of the view of image `index`; `None` exactly when there
    /// is no such view.
    pub fn image_view(&self, index: usize) -> (handle: Option<u64>)
        ensures
            handle == if index < self.spec_image_views().len() {
                Some(self.spec_image_views()[index as int])
            } else {
                None
            },
    {
        if index < self.image_views.len() {
            Some(self.image_views[index])
        } else {
            None
        }
    }

    /// The handle of the framebuffer of image `index`; `None` exactly when
    /// there is no such framebuffer.
    pub fn framebuffer(&self, index: usize) -> (handle: Option<u64>)
        ensures
            handle == if index < self.spec_framebuffers().len() {
                Some(self.spec_framebuffers()[index as int])
            } else {
                None
            },
    {
        if index < self.framebuffers.len() {
            Some(self.framebuffers[index])
        } else {
            None
        }
    }
}

/// The kinds of GPU object that the renderer destroys.
#[derive(Clone, Copy, Debug, PartialEq, Eq, Structural)]
pub enum Resource {
    Semaphore,
    Fence,
    Framebuffer,
    RenderPass,
    /// The per-frame command buffers; they are named by their pool.
    CommandBuffers,
    ImageView,
    Swapchain,
    Buffer,
    Memory,
    Pipeline,
    PipelineLayout,
    DescriptorPool,
    DescriptorSetLayout,
    CommandPool,
    Device,
    Surface,
    Instance,
}

/// One step of tearing the renderer down.
#[derive(Clone, Copy, Debug, PartialEq, Eq, Structural)]
pub enum TeardownStep {
    /// Wait until the device has finished all submitted work.
    WaitDeviceIdle,
    /// Destroy or free the object with this handle.
    Destroy { resource: Resource, handle: u64 },
}

/// The handles of what a mesh owns.
#[derive(Clone, Copy, Debug, PartialEq, Eq, Structural)]
pub struct MeshHandles {
    pub vertex_buffer: u64,
    pub vertex_buffer_memory: u64,
    pub index_buffer: u64,
    pub index_buffer_memory: u64,
    pub pipeline_layout: u64,
    pub pipeline: u64,
}

/// The handles of all that the renderer owns.
pub struct RendererResources {
    pub instance: u64,
    pub surface: u64,
    pub device: u64,
    pub swapchain: Swapchain,
    pub command_pool: u64,
    pub render_pass: u64,
    pub image_available: Vec<u64>,
    pub render_finished: Vec<u64>,
    pub is_rendering: Vec<u64>,
    pub desc_set_layout: u64,
    pub desc_pool: u64,
    pub uniform_buffers: Vec<u64>,
    pub uniform_buffers_memories: Vec<u64>,
    pub meshes: Vec<MeshHandles>,
}

/// The steps that destroy the objects `handles`, all of kind `resource`, in
/// the order of the handles.
pub open spec fn spec_destroy_all(resource: Resource, handles: Seq<u64>) -> Seq<TeardownStep> {
    handles.map_values(|handle: u64| TeardownStep::Destroy { resource, handle })
}

/// The steps that destroy the pipelines of the meshes, in the meshes'
/// order. A pipeline is built against the render pass and the swapchain's
/// extent, so it goes with the swapchain.
pub open spec fn spec_destroy_pipelines(meshes: Seq<MeshHandles>) -> Seq<TeardownStep> {
    meshes.map_values(
        |mesh: MeshHandles|
            TeardownStep::Destroy { resource: Resource::Pipeline, handle: mesh.pipeline },
    )
}

/// The steps that tear a swapchain down: wait for the device, destroy the
/// framebuffers, then the pipelines and the render pass that they depend
/// on, free the command buffers, destroy the image views and last the
/// swapchain.
pub open spec fn spec_swapchain_teardown(
    swapchain: Swapchain,
    meshes: Seq<MeshHandles>,
    render_pass: u64,
    command_pool: u64,
) -> Seq<TeardownStep> {
    seq![TeardownStep::WaitDeviceIdle] + spec_destroy_all(
        Resource::Framebuffer,
        swapchain.spec_framebuffers(),
    ) + spec_destroy_pipelines(meshes) + seq![
        TeardownStep::Destroy { resource: Resource::RenderPass, handle: render_pass },
        TeardownStep::Destroy { resource: Resource::CommandBuffers, handle: command_pool },
    ] + spec_destroy_all(Resource::ImageView, swapchain.spec_image_views()) + seq![
        TeardownStep::Destroy { resource: Resource::Swapchain, handle: swapchain.spec_handle() },
    ]
}

/// The steps that destroy what is left of a mesh once its pipeline went
/// with the swapchain: its index buffer and memory, its vertex buffer and
/// memory, and the layout of its pipeline.
pub open spec fn spec_mesh_teardown(mesh: MeshHandles) -> Seq<TeardownStep> {
    seq![
        TeardownStep::Destroy { resource: Resource::Buffer, handle: mesh.index_buffer },
        TeardownStep::Destroy { resource: Resource::Memory, handle: mesh.index_buffer_memory },
        TeardownStep::Destroy { resource: Resource::Buffer, handle: mesh.vertex_buffer },
        TeardownStep::Destroy { resource: Resource::Memory, handle: mesh.vertex_buffer_memory },
        TeardownStep::Destroy { resource: Resource::PipelineLayout, handle: mesh.pipeline_layout },
    ]
}

/// The steps that destroy the first `n` meshes, mesh after mesh.
pub open spec fn spec_meshes_teardown(meshes: Seq<MeshHandles>, n: int) -> Seq<TeardownStep>
    decreases n,
{
    if n <= 0 {
        Seq::empty()
    } else {
        spec_meshes_teardown(meshes, n - 1) + spec_mesh_teardown(meshes[n - 1])
    }
}

/// The last steps of a teardown: the descriptor pool, the descriptor-set
/// layout and the command pool, then the device, the surface and last the
/// instance.
pub open spec fn spec_teardown_tail(resources: RendererResources) -> Seq<TeardownStep> {
    seq![
        TeardownStep::Destroy { resource: Resource::DescriptorPool, handle: resources.desc_pool },
        TeardownStep::Destroy {
            resource: Resource::DescriptorSetLayout,
            handle: resources.desc_set_layout,
        },
        TeardownStep::Destroy { resource: Resource::CommandPool, handle: resources.command_pool },
        TeardownStep::Destroy { resource: Resource::Device, handle: resources.device },
        TeardownStep::Destroy { resource: Resource::Surface, handle: resources.surface },
        TeardownStep::Destroy { resource: Resource::Instance, handle: resources.instance },
    ]
}

/// The steps that tear the renderer down: wait for the device; destroy the
/// semaphores and fences of the frame slots; tear the swapchain down, and
/// the pipelines with it; destroy the uniform buffers and free their
/// memory; destroy what is left of the meshes; then the tail.
pub open spec fn spec_renderer_teardown(resources: RendererResources) -> Seq<TeardownStep> {
    seq![TeardownStep::WaitDeviceIdle] + spec_destroy_all(
        Resource::Semaphore,
        resources.image_available@,
    ) + spec_destroy_all(Resource::Semaphore, resources.render_finished@) + spec_destroy_all(
        Resource::Fence,
        resources.is_rendering@,
    ) + spec_swapchain_teardown(
        resources.swapchain,
        resources.meshes@,
        resources.render_pass,
        resources.command_pool,
    ) + spec_destroy_all(Resource::Buffer, resources.uniform_buffers@) + spec_destroy_all(
        Resource::Memory,
        resources.uniform_buffers_memories@,
    ) + spec_meshes_teardown(resources.meshes@, resources.meshes.len() as int)
        + spec_teardown_tail(resources)
}

/// Adds the steps that destroy the objects `handles` of kind `resource`.
pub fn destroy_all(steps: &mut Vec<TeardownStep>, resource: Resource, handles: &Vec<u64>)
    ensures
        final(steps)@ == old(steps)@ + spec_destroy_all(resource, handles@),
{
    let mut i: usize = 0;
    while i < handles.len()
        invariant
            0 <= i <= handles.len(),
            steps@ == old(steps)@ + spec_destroy_all(resource, handles@.take(i as int)),
        decreases handles.len() - i,
    {
        steps.push(TeardownStep::Destroy { resource, handle: handles[i] });
        i += 1;
        assert(steps@ =~= old(steps)@ + spec_destroy_all(resource, handles@.take(i as int)));
    }
    assert(handles@.take(handles.len() as int) =~= handles@);
}

/// Adds the steps that destroy the pipelines of the meshes.
pub fn destroy_pipelines(steps: &mut Vec<TeardownStep>, meshes: &Vec<MeshHandles>)
    ensures
        final(steps)@ == old(steps)@ + spec_destroy_pipelines(meshes@),
{
    let mut i: usize = 0;
    while i < meshes.len()
        invariant
            0 <= i <= meshes.len(),
            steps@ == old(steps)@ + spec_destroy_pipelines(meshes@.take(i as int)),
        decreases meshes.len() - i,
    {
        steps.push(
            TeardownStep::Destroy { resource: Resource::Pipeline, handle: meshes[i].pipeline },
        );
        i += 1;
        assert(steps@ =~= old(steps)@ + spec_destroy_pipelines(meshes@.take(i as int)));
    }
    assert(meshes@.take(meshes.len() as int) =~= meshes@);
}

/// Adds the steps that tear the swapchain down, and with it the pipelines
/// of `meshes`, which were built against its render pass and extent.
pub fn cleanup_swapchain(
    steps: &mut Vec<TeardownStep>,
    swapchain: &Swapchain,
    meshes: &Vec<MeshHandles>,
    render_pass: u64,
    command_pool: u64,
)
    ensures
        final(steps)@ == old(steps)@ + spec_swapchain_teardown(
            *swapchain,
            meshes@,
            render_pass,
            command_pool,
        ),
{
    steps.push(TeardownStep::WaitDeviceIdle);
    destroy_all(steps, Resource::Framebuffer, &swapchain.framebuffers);
    destroy_pipelines(steps, meshes);
    steps.push(TeardownStep::Destroy { resource: Resource::RenderPass, handle: render_pass });
    steps.push(TeardownStep::Destroy { resource: Resource::CommandBuffers, handle: command_pool });
    destroy_all(steps, Resource::ImageView, &swapchain.image_views);
    steps.push(TeardownStep::Destroy { resource: Resource::Swapchain, handle: swapchain.handle });
    assert(steps@ =~= old(steps)@ + spec_swapchain_teardown(
        *swapchain,
        meshes@,
        render_pass,
        command_pool,
    ));
}

/// Adds the steps that destroy what is left of a mesh once its pipeline
/// went with the swapchain.
pub fn destroy_mesh(steps: &mut Vec<TeardownStep>, mesh: &MeshHandles)
    ensures
        final(steps)@ == old(steps)@ + spec_mesh_teardown(*mesh),
{
    steps.push(TeardownStep::Destroy { resource: Resource::Buffer, handle: mesh.index_buffer });
    steps.push(
        TeardownStep::Destroy { resource: Resource::Memory, handle: mesh.index_buffer_memory },
    );
    steps.push(TeardownStep::Destroy { resource: Resource::Buffer, handle: mesh.vertex_buffer });
    steps.push(
        TeardownStep::Destroy { resource: Resource::Memory, handle: mesh.vertex_buffer_memory },
    );
    steps.push(
        TeardownStep::Destroy { resource: Resource::PipelineLayout, handle: mesh.pipeline_layout },
    );
    assert(steps@ =~= old(steps)@ + spec_mesh_teardown(*mesh));
}

/// The steps that tear the renderer down, in their order.
pub fn teardown(resources: &RendererResources) -> (steps: Vec<TeardownStep>)
    ensures
        steps@ == spec_renderer_teardown(*resources),
{
    let mut steps: Vec<TeardownStep> = Vec::new();
    steps.push(TeardownStep::WaitDeviceIdle);
    destroy_all(&mut steps, Resource::Semaphore, &resources.image_available);
    destroy_all(&mut steps, Resource::Semaphore, &resources.render_finished);
    destroy_all(&mut steps, Resource::Fence, &resources.is_rendering);
    cleanup_swapchain(
        &mut steps,
        &resources.swapchain,
        &resources.meshes,
        resources.render_pass,
        resources.command_pool,
    );
    destroy_all(&mut steps, Resource::Buffer, &resources.uniform_buffers);
    destroy_all(&mut steps, Resource::Memory, &resources.uniform_buffers_memories);
    let ghost head = steps@;
    let mut i: usize = 0;
    while i < resources.meshes.len()
        invariant
            0 <= i <= resources.meshes.len(),
            steps@ == head + spec_meshes_teardown(resources.meshes@, i as int),
        decreases resources.meshes.len() - i,
    {
        destroy_mesh(&mut steps, &resources.meshes[i]);
        i += 1;
        assert(steps@ =~= head + spec_meshes_teardown(resources.meshes@, i as int));
    }
    steps.push(
        TeardownStep::Destroy { resource: Resource::DescriptorPool, handle: resources.desc_pool },
    );
    steps.push(
        TeardownStep::Destroy {
            resource: Resource::DescriptorSetLayout,
            handle: resources.desc_set_layout,
        },
    );
    steps.push(
        TeardownStep::Destroy { resource: Resource::CommandPool, handle: resources.command_pool },
    );
    steps.push(TeardownStep::Destroy { resource: Resource::Device, handle: resources.device });
    steps.push(TeardownStep::Destroy { resource: Resource::Surface, handle: resources.surface });
    steps.push(TeardownStep::Destroy { resource: Resource::Instance, handle: resources.instance });
    assert(steps@ =~= spec_renderer_teardown(*resources));
    steps
}

/// Whether a step leaves the device, the surface and the instance alone:
/// it waits, or it destroys something that the device made.
pub open spec fn spares_device(step: TeardownStep) -> bool {
    match step {
        TeardownStep::WaitDeviceIdle => true,
        TeardownStep::Destroy { resource, .. } => resource != Resource::Device && resource
            != Resource::Surface && resource != Resource::Instance,
    }
}

/// Whether every step of `steps` leaves the device, the surface and the
/// instance alone.
pub open spec fn all_spare_device(steps: Seq<TeardownStep>) -> bool {
    forall|i: int| 0 <= i < steps.len() ==> spares_device(#[trigger] steps[i])
}

proof fn lemma_meshes_spare_device(meshes: Seq<MeshHandles>, n: int)
    requires
        0 <= n <= meshes.len(),
    ensures
        all_spare_device(spec_meshes_teardown(meshes, n)),
    decreases n,
{
    if n > 0 {
        lemma_meshes_spare_device(meshes, n - 1);
    }
}

/// A teardown begins with the wait for the device, so that nothing is
/// destroyed while the GPU may still use it. It ends with the device, the
/// surface and the instance, in this order, and no step before these three
/// touches any of them: the device outlives all that it made.
pub proof fn lemma_teardown_order(resources: RendererResources)
    ensures
        ({
            let steps = spec_renderer_teardown(resources);
            let n = steps.len() as int;
            &&& n >= 7
            &&& steps[0] == TeardownStep::WaitDeviceIdle
            &&& steps[n - 3] == (TeardownStep::Destroy {
                resource: Resource::Device,
                handle: resources.device,
            })
            &&& steps[n - 2] == (TeardownStep::Destroy {
                resource: Resource::Surface,
                handle: resources.surface,
            })
            &&& steps[n - 1] == (TeardownStep::Destroy {
                resource: Resource::Instance,
                handle: resources.instance,
            })
            &&& forall|i: int| 0 <= i < n - 3 ==> spares_device(#[trigger] steps[i])
        }),
{
    let wait = seq![TeardownStep::WaitDeviceIdle];
    let available = spec_destroy_all(Resource::Semaphore, resources.image_available@);
    let finished = spec_destroy_all(Resource::Semaphore, resources.render_finished@);
    let fences = spec_destroy_all(Resource::Fence, resources.is_rendering@);
    let swapchain = spec_swapchain_teardown(
        resources.swapchain,
        resources.meshes@,
        resources.render_pass,
        resources.command_pool,
    );
    let buffers = spec_destroy_all(Resource::Buffer, resources.uniform_buffers@);
    let memories = spec_destroy_all(Resource::Memory, resources.uniform_buffers_memories@);
    let meshes = spec_meshes_teardown(resources.meshes@, resources.meshes.len() as int);
    let tail = spec_teardown_tail(resources);
    lemma_meshes_spare_device(resources.meshes@, resources.meshes.len() as int);
    assert(all_spare_device(wait));
    assert(all_spare_device(available));
    assert(all_spare_device(finished));
    assert(all_spare_device(fences));
    assert(all_spare_device(swapchain));
    assert(all_spare_device(buffers));
    assert(all_spare_device(memories));
    let body = wait + available + finished + fences + swapchain + buffers + memories + meshes;
    assert(all_spare_device(body));
    let steps = spec_renderer_teardown(resources);
    assert(steps == body + tail);
    assert(tail.len() == 6);
    assert(body.len() >= 1);
    assert forall|i: int| 0 <= i < steps.len() - 3 implies spares_device(#[trigger] steps[i]) by {
        if i < body.len() {
            assert(steps[i] == body[i]);
        } else {
            assert(steps[i] == tail[i - body.len()]);
        }
    }
}

/// Where a step stands in the teardown of a swapchain: the wait first,
/// then framebuffers, pipelines, the render pass, the command buffers, image
/// views, and the swapchain last.
pub open spec fn spec_swapchain_stage(step: TeardownStep) -> int {
    match step {
        TeardownStep::WaitDeviceIdle => 0,
        TeardownStep::Destroy { resource, .. } => match resource {
            Resource::Framebuffer => 1,
            Resource::Pipeline => 2,
            Resource::RenderPass => 3,
            Resource::CommandBuffers => 4,
            Resource::ImageView => 5,
            Resource::Swapchain => 6,
            _ => 7,
        },
    }
}

/// In the teardown of a swapchain the stages follow each other: after the
/// wait every framebuffer goes before every pipeline, the pipelines before
/// the render pass, the render pass before the command buffers, these
/// before every image view, and the swapchain goes last. Nothing else is
/// destroyed.
pub proof fn lemma_swapchain_teardown_order(
    swapchain: Swapchain,
    meshes: Seq<MeshHandles>,
    render_pass: u64,
    command_pool: u64,
)
    ensures
        ({
            let steps = spec_swapchain_teardown(swapchain, meshes, render_pass, command_pool);
            &&& forall|i: int, j: int|
                0 <= i < j < steps.len() ==> spec_swapchain_stage(steps[i])
                    <= spec_swapchain_stage(steps[j])
            &&& forall|i: int| 0 <= i < steps.len() ==> spec_swapchain_stage(#[trigger] steps[i]) <= 6
            &&& steps[0] == TeardownStep::WaitDeviceIdle
            &&& steps[steps.len() - 1] == (TeardownStep::Destroy {
                resource: Resource::Swapchain,
                handle: swapchain.spec_handle(),
            })
        }),
{
    let wait = seq![TeardownStep::WaitDeviceIdle];
    let framebuffers = spec_destroy_all(Resource::Framebuffer, swapchain.spec_framebuffers());
    let pipelines = spec_destroy_pipelines(meshes);
    let middle = seq![
        TeardownStep::Destroy { resource: Resource::RenderPass, handle: render_pass },
        TeardownStep::Destroy { resource: Resource::CommandBuffers, handle: command_pool },
    ];
    let views = spec_destroy_all(Resource::ImageView, swapchain.spec_image_views());
    let last = seq![
        TeardownStep::Destroy { resource: Resource::Swapchain, handle: swapchain.spec_handle() },
    ];
    let steps = spec_swapchain_teardown(swapchain, meshes, render_pass, command_pool);
    assert(steps == wait + framebuffers + pipelines + middle + views + last);
    let a = wait.len() as int;
    let b = a + framebuffers.len();
    let c = b + pipelines.len();
    let d = c + middle.len();
    let e = d + views.len();
    assert forall|i: int| 0 <= i < steps.len() implies spec_swapchain_stage(#[trigger] steps[i]) == (
    if i < a {
        0int
    } else if i < b {
        1int
    } else if i < c {
        2int
    } else if i == c {
        3int
    } else if i < d {
        4int
    } else if i < e {
        5int
    } else {
        6int
    }) by {
        if i < a {
            assert(steps[i] == wait[i]);
        } else if i < b {
            assert(steps[i] == framebuffers[i - a]);
        } else if i < c {
            assert(steps[i] == pipelines[i - b]);
        } else if i < d {
            assert(steps[i] == middle[i - c]);
        } else if i < e {
            assert(steps[i] == views[i - d]);
        } else {
            assert(steps[i] == last[i - e]);
        }
    }
}

} // verus!
