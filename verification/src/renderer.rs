//! The render context: the descriptions of the objects it owns, kept
//! consistent with one another, and the protocol of one frame.
//!
//! The context decides and the caller acts. `do_frame` takes what has just
//! happened and answers with what to do next; the caller does it on the
//! device and reports back, until the frame has been submitted and presented.

pub mod frame;
pub mod material;
pub mod mesh;
pub mod util;

use crate::renderer::frame::{
    drawn_index_counts, frame_commands, one_draw_per_compiled_mesh, record_frame, Command, World,
};
use crate::renderer::material::{ImageHandle, TextureImage, TextureImageView};
use crate::renderer::util::{
    any_suitable, color_view_of, create_framebuffers, create_pipeline, create_render_pass,
    create_swapchain, create_viewport, depth_view_of, first_supported, framebuffer_of,
    framebuffers_for, is_selection, pipeline_of, render_pass_of, select_physical_device,
    swapchain_request, viewport_of, Format, Framebuffer, GraphicsPipeline, ImageView,
    PhysicalDevice, RenderPass, SurfaceCapabilities, SwapchainCreateInfo, Viewport,
};
use vstd::prelude::*;

verus! {

/// The queue that work is submitted to: a queue family of a physical device,
/// both by their place in the enumeration.
#[derive(Clone, Copy, Debug, PartialEq, Eq, Structural)]
pub struct Queue {
    pub physical_device: usize,
    pub family: usize,
}

/// How a sampler picks a texel.
#[derive(Clone, Copy, Debug, PartialEq, Eq, Structural)]
pub enum Filter {
    Nearest,
    Linear,
}

/// The sampler that every texture is read through.
#[derive(Clone, Copy, Debug, PartialEq, Eq, Structural)]
pub struct Sampler {
    pub mag_filter: Filter,
    pub min_filter: Filter,
}

/// Where the context stands within a frame.
#[derive(Clone, Copy, Debug, PartialEq, Eq)]
pub enum FramePhase {
    /// Between frames.
    Idle,
    /// The surface's size has been asked for.
    AwaitingSurfaceSize,
    /// A swapchain of these dimensions has been asked for.
    AwaitingSwapchain { dimensions: [u32; 2] },
    /// The next presentable image has been asked for.
    AwaitingImage,
}

/// What happened on the device or in the window.
#[derive(Debug)]
pub enum FrameEvent {
    /// A frame is to be drawn.
    RedrawRequested,
    /// The surface has this size now.
    SurfaceSize([u32; 2]),
    /// The swapchain was recreated; these are the views of its images.
    SwapchainRecreated(Vec<ImageView>),
    /// An image was acquired; `suboptimal` as the presentation engine said.
    ImageAcquired { image_index: usize, suboptimal: bool },
}

/// What the caller is to do next.
#[derive(Debug)]
pub enum FrameAction {
    /// Report the surface's size.
    QuerySurfaceSize,
    /// Recreate the swapchain with these parameters and report its images.
    RecreateSwapchain(SwapchainCreateInfo),
    /// Acquire the next presentable image and report it.
    AcquireImage,
    /// Execute the commands once the image is available, present the image
    /// once they have run, and wait until that is done. The frame is then
    /// over.
    SubmitAndPresent { image_index: usize, commands: Vec<Command> },
}

/// The state of a renderer bound to one window.
#[derive(Debug)]
pub struct VulkanContext {
    queue: Queue,
    current: Generation,
    need_swapchain_recreation: bool,
    render_pass: RenderPass,
    dummy_texture: TextureImage,
    sampler: Sampler,
    phase: FramePhase,
}

/// What is built for one swapchain and replaced as a whole with it.
#[derive(Debug)]
struct Generation {
    swapchain: SwapchainCreateInfo,
    swapchain_images: Vec<ImageView>,
    viewport: Viewport,
    dimensions: [u32; 2],
    pipeline: GraphicsPipeline,
    framebuffers: Vec<Framebuffer>,
    color_view: ImageView,
    depth_view: ImageView,
}

/// What a context is, for contracts.
pub struct ContextView {
    pub queue: Queue,
    pub swapchain: SwapchainCreateInfo,
    pub swapchain_images: Seq<ImageView>,
    pub viewport: Viewport,
    pub need_swapchain_recreation: bool,
    pub dimensions: [u32; 2],
    pub render_pass: RenderPass,
    pub pipeline: GraphicsPipeline,
    pub framebuffers: Seq<Framebuffer>,
    pub color_view: ImageView,
    pub depth_view: ImageView,
    pub dummy_texture: TextureImageView,
    pub sampler: Sampler,
    pub phase: FramePhase,
}

impl View for VulkanContext {
    type V = ContextView;

    closed spec fn view(&self) -> ContextView {
        ContextView {
            queue: self.queue,
            swapchain: self.current.swapchain,
            swapchain_images: self.current.swapchain_images@,
            viewport: self.current.viewport,
            need_swapchain_recreation: self.need_swapchain_recreation,
            dimensions: self.current.dimensions,
            render_pass: self.render_pass,
            pipeline: self.current.pipeline,
            framebuffers: self.current.framebuffers@,
            color_view: self.current.color_view,
            depth_view: self.current.depth_view,
            dummy_texture: self.dummy_texture@,
            sampler: self.sampler,
            phase: self.phase,
        }
    }
}

/// The instance extensions that matter to a windowed renderer.
#[derive(Clone, Copy, Debug, PartialEq, Eq, Structural)]
pub struct InstanceExtensions {
    pub khr_surface: bool,
    pub khr_xlib_surface: bool,
    pub khr_xcb_surface: bool,
    pub khr_wayland_surface: bool,
    pub khr_android_surface: bool,
    pub khr_win32_surface: bool,
    pub mvk_ios_surface: bool,
    pub mvk_macos_surface: bool,
    pub khr_get_physical_device_properties2: bool,
    pub khr_get_surface_capabilities2: bool,
    pub ext_debug_utils: bool,
}

/// The device extensions that matter to the renderer.
#[derive(Clone, Copy, Debug, PartialEq, Eq, Structural)]
pub struct DeviceExtensions {
    pub khr_swapchain: bool,
    pub khr_maintenance1: bool,
}

/// The parameters the instance is created with: its extensions, and the
/// number of layers, which is always zero.
#[derive(Clone, Copy, Debug, PartialEq, Eq, Structural)]
pub struct InstanceCreateInfo {
    pub enabled_extensions: InstanceExtensions,
    pub enabled_layers: usize,
}

/// The parameters the device is created with: one queue of the chosen
/// family, and its extensions.
#[derive(Clone, Copy, Debug, PartialEq, Eq, Structural)]
pub struct DeviceCreateInfo {
    pub queue_family: usize,
    pub enabled_extensions: DeviceExtensions,
}

/// The device extensions that the renderer asks for.
pub open spec fn wanted_device_extensions() -> DeviceExtensions {
    DeviceExtensions { khr_swapchain: true, khr_maintenance1: true }
}

/// The extensions that are in both sets.
pub open spec fn common_extensions(a: DeviceExtensions, b: DeviceExtensions) -> DeviceExtensions {
    DeviceExtensions {
        khr_swapchain: a.khr_swapchain && b.khr_swapchain,
        khr_maintenance1: a.khr_maintenance1 && b.khr_maintenance1,
    }
}

/// Describes the instance to create: what the window system requires,
/// together with the debug-messenger extension, and no layers.
pub fn instance_create_info(required: InstanceExtensions) -> (r: InstanceCreateInfo)
    ensures
        r == (InstanceCreateInfo {
            enabled_extensions: InstanceExtensions { ext_debug_utils: true, ..required },
            enabled_layers: 0,
        }),
{
    InstanceCreateInfo {
        enabled_extensions: InstanceExtensions {
            khr_surface: required.khr_surface,
            khr_xlib_surface: required.khr_xlib_surface,
            khr_xcb_surface: required.khr_xcb_surface,
            khr_wayland_surface: required.khr_wayland_surface,
            khr_android_surface: required.khr_android_surface,
            khr_win32_surface: required.khr_win32_surface,
            mvk_ios_surface: required.mvk_ios_surface,
            mvk_macos_surface: required.mvk_macos_surface,
            khr_get_physical_device_properties2: required.khr_get_physical_device_properties2,
            khr_get_surface_capabilities2: required.khr_get_surface_capabilities2,
            ext_debug_utils: true,
        },
        enabled_layers: 0,
    }
}

/// Describes the device to create: one queue of the chosen family, and of
/// the extensions that the renderer asks for those that the device
/// supports.
pub fn device_create_info(queue_family: usize, supported: DeviceExtensions) -> (r: DeviceCreateInfo)
    ensures
        r == (DeviceCreateInfo {
            queue_family: queue_family,
            enabled_extensions: common_extensions(supported, wanted_device_extensions()),
        }),
{
    let wanted = DeviceExtensions { khr_swapchain: true, khr_maintenance1: true };
    DeviceCreateInfo {
        queue_family: queue_family,
        enabled_extensions: DeviceExtensions {
            khr_swapchain: supported.khr_swapchain && wanted.khr_swapchain,
            khr_maintenance1: supported.khr_maintenance1 && wanted.khr_maintenance1,
        },
    }
}

/// The format of the presentable images.
pub open spec fn surface_format() -> Format {
    Format::B8G8R8A8Srgb
}

/// The 1x1 opaque white texture that stands in for a missing one, resident
/// on the device under the name `image`.
pub open spec fn fallback_texture(image: ImageHandle) -> TextureImageView {
    TextureImageView {
        data: seq![255u8, 255u8, 255u8, 255u8],
        format: Format::R8G8B8A8Unorm,
        size: [1u32, 1u32],
        image: Some(image),
    }
}

/// The objects that depend on the swapchain belong to one generation: there
/// is at least one swapchain image and one framebuffer per image, built on
/// the shared colour and depth attachments; the swapchain has the current
/// dimensions; the viewport covers them; the pipeline is the one for the
/// render pass and that viewport; and the fallback texture is on the device.
pub open spec fn consistent(c: ContextView) -> bool {
    &&& c.swapchain_images.len() > 0
    &&& c.swapchain.image_extent == c.dimensions
    &&& c.viewport == viewport_of(c.dimensions)
    &&& c.pipeline == pipeline_of(c.render_pass, c.viewport)
    &&& framebuffers_for(c.render_pass, c.swapchain_images, c.framebuffers)
    &&& c.color_view == color_view_of(c.swapchain_images)
    &&& c.depth_view == depth_view_of(c.swapchain_images)
    &&& c.dummy_texture.image.is_some()
    &&& c.dummy_texture == fallback_texture(c.dummy_texture.image.unwrap())
}

/// The context right after start-up.
pub open spec fn initial_context(
    queue: Queue,
    window_size: [u32; 2],
    caps: SurfaceCapabilities,
    swapchain_images: Seq<ImageView>,
    framebuffers: Seq<Framebuffer>,
    dummy_image: ImageHandle,
) -> ContextView {
    ContextView {
        queue: queue,
        swapchain: swapchain_request(caps, window_size, surface_format()),
        swapchain_images: swapchain_images,
        viewport: viewport_of(window_size),
        need_swapchain_recreation: false,
        dimensions: window_size,
        render_pass: render_pass_of(surface_format()),
        pipeline: pipeline_of(render_pass_of(surface_format()), viewport_of(window_size)),
        framebuffers: framebuffers,
        color_view: color_view_of(swapchain_images),
        depth_view: depth_view_of(swapchain_images),
        dummy_texture: fallback_texture(dummy_image),
        sampler: Sampler { mag_filter: Filter::Nearest, min_filter: Filter::Nearest },
        phase: FramePhase::Idle,
    }
}

/// The event is the one that the context's phase waits for, and what it
/// brings can be used: a recreated swapchain has at least one image, and an
/// acquired image is one that has a framebuffer.
pub open spec fn event_accepted(c: ContextView, event: FrameEvent) -> bool {
    match event {
        FrameEvent::RedrawRequested => c.phase == FramePhase::Idle,
        FrameEvent::SurfaceSize(_) => c.phase == FramePhase::AwaitingSurfaceSize,
        FrameEvent::SwapchainRecreated(images) => c.phase is AwaitingSwapchain && images@.len()
            > 0,
        FrameEvent::ImageAcquired { image_index, .. } => c.phase == FramePhase::AwaitingImage
            && image_index < c.framebuffers.len(),
    }
}

/// The context after an accepted event.
///
/// A redraw request leads to recreation when the surface was invalidated,
/// else straight to acquisition. A recreated swapchain replaces the
/// dimensions, the image views, the viewport, the pipeline, the
/// framebuffers and the shared attachments together, keeps the render pass,
/// and makes the surface valid again. An acquired image ends the frame; if
/// it came as suboptimal, the surface is invalid from the next frame on.
pub open spec fn next_state(c: ContextView, event: FrameEvent) -> ContextView {
    match event {
        FrameEvent::RedrawRequested => ContextView {
            phase: if c.need_swapchain_recreation {
                FramePhase::AwaitingSurfaceSize
            } else {
                FramePhase::AwaitingImage
            },
            ..c
        },
        FrameEvent::SurfaceSize(dimensions) => ContextView {
            phase: FramePhase::AwaitingSwapchain { dimensions: dimensions },
            ..c
        },
        FrameEvent::SwapchainRecreated(images) => {
            let dimensions = c.phase->dimensions;
            ContextView {
                swapchain: SwapchainCreateInfo { image_extent: dimensions, ..c.swapchain },
                swapchain_images: images@,
                viewport: viewport_of(dimensions),
                need_swapchain_recreation: false,
                dimensions: dimensions,
                pipeline: pipeline_of(c.render_pass, viewport_of(dimensions)),
                framebuffers: Seq::new(
                    images@.len(),
                    |i: int| framebuffer_of(c.render_pass, images@, i),
                ),
                color_view: color_view_of(images@),
                depth_view: depth_view_of(images@),
                phase: FramePhase::AwaitingImage,
                ..c
            }
        },
        FrameEvent::ImageAcquired { image_index, suboptimal } => ContextView {
            need_swapchain_recreation: c.need_swapchain_recreation || suboptimal,
            phase: FramePhase::Idle,
            ..c
        },
    }
}

/// `action` is what the context answers to an accepted event.
///
/// An acquired image is always answered with a submission that presents
/// that very image, whatever the scene holds.
pub open spec fn is_answer(c: ContextView, event: FrameEvent, world: World, action: FrameAction)
    -> bool {
    match event {
        FrameEvent::RedrawRequested => if c.need_swapchain_recreation {
            action is QuerySurfaceSize
        } else {
            action is AcquireImage
        },
        FrameEvent::SurfaceSize(dimensions) => action is RecreateSwapchain
            && action->RecreateSwapchain_0 == (SwapchainCreateInfo {
            image_extent: dimensions,
            ..c.swapchain
        }),
        FrameEvent::SwapchainRecreated(_) => action is AcquireImage,
        FrameEvent::ImageAcquired { image_index, .. } => action is SubmitAndPresent
            && action->image_index == image_index && action->commands@ == frame_commands(
            world,
            image_index,
        ),
    }
}

/// The context after the surface was reported as changed.
pub open spec fn invalidated(c: ContextView) -> ContextView {
    ContextView { need_swapchain_recreation: true, ..c }
}

/// An accepted event leaves a consistent context consistent: whatever is
/// rebuilt is rebuilt together.
pub proof fn events_keep_consistency(c: ContextView, event: FrameEvent)
    requires
        consistent(c),
        event_accepted(c, event),
    ensures
        consistent(next_state(c, event)),
        consistent(invalidated(c)),
        next_state(c, event).render_pass == c.render_pass,
        next_state(c, event).queue == c.queue,
{
}

/// No acquired image is left unpresented: whatever the scene holds, the
/// answer to an acquired image is the submission that presents that image,
/// and it ends the frame. With no camera or several, what is submitted draws
/// nothing.
pub proof fn acquired_image_is_presented(
    c: ContextView,
    image_index: usize,
    suboptimal: bool,
    world: World,
    action: FrameAction,
)
    requires
        is_answer(
            c,
            FrameEvent::ImageAcquired { image_index: image_index, suboptimal: suboptimal },
            world,
            action,
        ),
    ensures
        action is SubmitAndPresent,
        action->image_index == image_index,
        world.cameras@.len() != 1 ==> drawn_index_counts(action->commands@) == Seq::<u32>::empty(),
        next_state(
            c,
            FrameEvent::ImageAcquired { image_index: image_index, suboptimal: suboptimal },
        ).phase == FramePhase::Idle,
{
    one_draw_per_compiled_mesh(world, image_index);
}

/// The context at the end of the frame that follows a change of the
/// surface: the surface is invalidated between frames, then a redraw is
/// requested, the surface reports `size`, the swapchain comes back with
/// `images`, and the image `image_index` is acquired.
pub open spec fn after_resized_frame(
    c: ContextView,
    size: [u32; 2],
    images: Vec<ImageView>,
    image_index: usize,
    suboptimal: bool,
) -> ContextView {
    let c1 = next_state(invalidated(c), FrameEvent::RedrawRequested);
    let c2 = next_state(c1, FrameEvent::SurfaceSize(size));
    let c3 = next_state(c2, FrameEvent::SwapchainRecreated(images));
    next_state(c3, FrameEvent::ImageAcquired { image_index: image_index, suboptimal: suboptimal })
}

/// After the surface changed, the next frame rebuilds before it draws: each
/// of its steps is accepted in turn, and at its end there is one framebuffer
/// per new swapchain image, the dimensions of the viewport, of the
/// pipeline's viewport and of the swapchain are the surface's new
/// dimensions, the render pass is the old one, and
/// the surface is valid again unless the acquisition was suboptimal.
pub proof fn resize_is_followed_by_rebuild(
    c: ContextView,
    size: [u32; 2],
    images: Vec<ImageView>,
    image_index: usize,
    suboptimal: bool,
)
    requires
        consistent(c),
        c.phase == FramePhase::Idle,
        images@.len() > 0,
        image_index < images@.len(),
    ensures
        ({
            let c0 = invalidated(c);
            let c1 = next_state(c0, FrameEvent::RedrawRequested);
            let c2 = next_state(c1, FrameEvent::SurfaceSize(size));
            let c3 = next_state(c2, FrameEvent::SwapchainRecreated(images));
            &&& event_accepted(c0, FrameEvent::RedrawRequested)
            &&& c1.phase == FramePhase::AwaitingSurfaceSize
            &&& event_accepted(c1, FrameEvent::SurfaceSize(size))
            &&& event_accepted(c2, FrameEvent::SwapchainRecreated(images))
            &&& event_accepted(
                c3,
                FrameEvent::ImageAcquired { image_index: image_index, suboptimal: suboptimal },
            )
        }),
        ({
            let end = after_resized_frame(c, size, images, image_index, suboptimal);
            &&& consistent(end)
            &&& end.phase == FramePhase::Idle
            &&& end.framebuffers.len() == images@.len()
            &&& end.swapchain_images == images@
            &&& end.dimensions == size
            &&& end.swapchain.image_extent == size
            &&& end.viewport == viewport_of(size)
            &&& end.viewport.dimensions == size
            &&& end.pipeline.viewport == end.viewport
            &&& end.render_pass == c.render_pass
            &&& end.need_swapchain_recreation == suboptimal
        }),
{
}

/// While the surface is valid a frame rebuilds nothing: a redraw request
/// goes straight to acquisition, and the frame ends with every object of the
/// context as it was.
pub proof fn valid_surface_is_not_rebuilt(c: ContextView, image_index: usize)
    requires
        consistent(c),
        c.phase == FramePhase::Idle,
        !c.need_swapchain_recreation,
        image_index < c.framebuffers.len(),
    ensures
        ({
            let c1 = next_state(c, FrameEvent::RedrawRequested);
            let acquired = FrameEvent::ImageAcquired { image_index: image_index, suboptimal: false };
            &&& c1.phase == FramePhase::AwaitingImage
            &&& event_accepted(c1, acquired)
            &&& next_state(c1, acquired) == c
        }),
{
}

impl VulkanContext {
    #[verifier::type_invariant]
    closed spec fn generation_consistent(self) -> bool {
        consistent(self@)
    }

    /// Assembles the context of a window from what start-up found: the
    /// enumerated devices, the capabilities of the surface on the chosen
    /// device, the views of the images of the swapchain created from
    /// `create_swapchain`'s request, and the name under which the fallback
    /// texture is made resident.
    pub fn new_windowed(
        window_size: [u32; 2],
        devices: &Vec<PhysicalDevice>,
        caps: &SurfaceCapabilities,
        swapchain_images: Vec<ImageView>,
        dummy_image: ImageHandle,
    ) -> (r: Self)
        requires
            any_suitable(devices@),
            first_supported(caps.supported_composite_alpha).is_some(),
            swapchain_images@.len() > 0,
        ensures
            is_selection(devices@, r@.queue.physical_device as int, r@.queue.family as int),
            r@ == initial_context(
                r@.queue,
                window_size,
                *caps,
                swapchain_images@,
                r@.framebuffers,
                dummy_image,
            ),
            consistent(r@),
    {
        let format = Format::B8G8R8A8Srgb;
        let (physical, queue_family) = select_physical_device(devices);
        let swapchain = create_swapchain(caps, window_size, format);
        let viewport = create_viewport(window_size);
        let render_pass = create_render_pass(format);
        let mut dummy_texture = TextureImage::from_bytes(
            [255u8, 255u8, 255u8, 255u8].as_slice(),
            Format::R8G8B8A8Unorm,
            [1u32, 1u32],
        );
        let _ = dummy_texture.upload_to_gpu(dummy_image);
        let pipeline = create_pipeline(&render_pass, viewport);
        let (framebuffers, color_view, depth_view) = create_framebuffers(
            &render_pass,
            &swapchain_images,
        );
        assert(dummy_texture@.data =~= seq![255u8, 255u8, 255u8, 255u8]);
        VulkanContext {
            queue: Queue { physical_device: physical, family: queue_family },
            current: Generation {
                swapchain: swapchain,
                swapchain_images: swapchain_images,
                viewport: viewport,
                dimensions: window_size,
                pipeline: pipeline,
                framebuffers: framebuffers,
                color_view: color_view,
                depth_view: depth_view,
            },
            need_swapchain_recreation: false,
            render_pass: render_pass,
            dummy_texture: dummy_texture,
            sampler: Sampler { mag_filter: Filter::Nearest, min_filter: Filter::Nearest },
            phase: FramePhase::Idle,
        }
    }

    /// The queue that uploads and frames are submitted to.
    pub fn gfx_queue(&self) -> (r: &Queue)
        ensures
            *r == self@.queue,
            consistent(self@),
    {
        proof {
            use_type_invariant(self);
        }
        &self.queue
    }

    /// Notes that the surface has changed: the swapchain is recreated before
    /// the next image is acquired.
    pub fn invalidate_surface(&mut self)
        ensures
            final(self)@ == invalidated(old(self)@),
            consistent(final(self)@),
    {
        proof {
            use_type_invariant(&*self);
        }
        self.need_swapchain_recreation = true;
    }
    /// Whether the swapchain is recreated before the next image is acquired.
    pub fn need_swapchain_recreation(&self) -> (r: bool)
        ensures
            r == self@.need_swapchain_recreation,
    {
        self.need_swapchain_recreation
    }

    /// The dimensions of the surface as the swapchain was last built for.
    pub fn dimensions(&self) -> (r: [u32; 2])
        ensures
            r == self@.dimensions,
    {
        self.current.dimensions
    }

    /// The current viewport, which has the surface's dimensions.
    pub fn viewport(&self) -> (r: Viewport)
        ensures
            r == self@.viewport,
            r == viewport_of(self@.dimensions),
            r.dimensions == self@.dimensions,
    {
        proof {
            use_type_invariant(self);
        }
        self.current.viewport
    }

    /// The render pass, which outlives every swapchain.
    pub fn render_pass(&self) -> (r: RenderPass)
        ensures
            r == self@.render_pass,
    {
        self.render_pass
    }

    /// The current pipeline.
    pub fn pipeline(&self) -> (r: GraphicsPipeline)
        ensures
            r == self@.pipeline,
            r == pipeline_of(self@.render_pass, self@.viewport),
    {
        proof {
            use_type_invariant(self);
        }
        self.current.pipeline
    }

    /// The parameters of the current swapchain.
    pub fn swapchain(&self) -> (r: SwapchainCreateInfo)
        ensures
            r == self@.swapchain,
    {
        self.current.swapchain
    }

    /// The views of the current swapchain images.
    pub fn swapchain_images(&self) -> (r: &Vec<ImageView>)
        ensures
            r@ == self@.swapchain_images,
            r@.len() > 0,
    {
        proof {
            use_type_invariant(self);
        }
        &self.current.swapchain_images
    }

    /// The current framebuffers, one per swapchain image.
    pub fn framebuffers(&self) -> (r: &Vec<Framebuffer>)
        ensures
            r@ == self@.framebuffers,
            framebuffers_for(self@.render_pass, self@.swapchain_images, r@),
    {
        proof {
            use_type_invariant(self);
        }
        &self.current.framebuffers
    }

    /// The shared multisampled colour attachment.
    pub fn color_view(&self) -> (r: ImageView)
        ensures
            r == self@.color_view,
    {
        self.current.color_view
    }

    /// The shared multisampled depth attachment.
    pub fn depth_view(&self) -> (r: ImageView)
        ensures
            r == self@.depth_view,
    {
        self.current.depth_view
    }

    /// The fallback texture.
    pub fn dummy_texture(&self) -> (r: &TextureImage)
        ensures
            r@ == self@.dummy_texture,
            r@.image.is_some(),
    {
        proof {
            use_type_invariant(self);
        }
        &self.dummy_texture
    }

    /// The sampler.
    pub fn sampler(&self) -> (r: Sampler)
        ensures
            r == self@.sampler,
    {
        self.sampler
    }

    /// Where the context stands within a frame.
    pub fn phase(&self) -> (r: FramePhase)
        ensures
            r == self@.phase,
    {
        self.phase
    }

    /// Whether `do_frame` can take this event now.
    pub fn accepts(&self, event: &FrameEvent) -> (r: bool)
        ensures
            r == event_accepted(self@, *event),
    {
        proof {
            use_type_invariant(self);
        }
        match event {
            FrameEvent::RedrawRequested => match self.phase {
                FramePhase::Idle => true,
                _ => false,
            },
            FrameEvent::SurfaceSize(_) => match self.phase {
                FramePhase::AwaitingSurfaceSize => true,
                _ => false,
            },
            FrameEvent::SwapchainRecreated(images) => match self.phase {
                FramePhase::AwaitingSwapchain { .. } => images.len() > 0,
                _ => false,
            },
            FrameEvent::ImageAcquired { image_index, .. } => match self.phase {
                FramePhase::AwaitingImage => *image_index < self.current.framebuffers.len(),
                _ => false,
            },
        }
    }

    /// Takes the next step of a frame: given what has just happened, moves
    /// the context on and answers with what the caller is to do next.
    ///
    /// A frame starts with `RedrawRequested` and is over when the answer is
    /// `SubmitAndPresent`. The swapchain is recreated first if the surface
    /// was invalidated. Every acquired image is presented: with the scene
    /// drawn if it has exactly one camera, cleared otherwise.
    pub fn do_frame(&mut self, event: FrameEvent, world: &World) -> (r: FrameAction)
        requires
            event_accepted(old(self)@, event),
        ensures
            final(self)@ == next_state(old(self)@, event),
            is_answer(old(self)@, event, *world, r),
            consistent(final(self)@),
    {
        proof {
            use_type_invariant(&*self);
        }
        match event {
            FrameEvent::RedrawRequested => self.begin_frame(),
            FrameEvent::SurfaceSize(dimensions) => self.request_swapchain(dimensions),
            FrameEvent::SwapchainRecreated(images) => {
                let dimensions = match self.phase {
                    FramePhase::AwaitingSwapchain { dimensions } => dimensions,
                    _ => self.current.dimensions,
                };
                self.recreate_swapchain(dimensions, images);
                FrameAction::AcquireImage
            },
            FrameEvent::ImageAcquired { image_index, suboptimal } => {
                self.end_frame(suboptimal);
                let commands = record_frame(world, image_index);
                FrameAction::SubmitAndPresent { image_index: image_index, commands: commands }
            },
        }
    }

    /// Starts a frame: towards recreation if the surface was invalidated,
    /// else towards acquisition.
    fn begin_frame(&mut self) -> (r: FrameAction)
        ensures
            final(self)@ == next_state(old(self)@, FrameEvent::RedrawRequested),
            old(self)@.need_swapchain_recreation ==> r is QuerySurfaceSize,
            !old(self)@.need_swapchain_recreation ==> r is AcquireImage,
    {
        proof {
            use_type_invariant(&*self);
        }
        if self.need_swapchain_recreation {
            self.phase = FramePhase::AwaitingSurfaceSize;
            FrameAction::QuerySurfaceSize
        } else {
            self.phase = FramePhase::AwaitingImage;
            FrameAction::AcquireImage
        }
    }

    /// Asks for the current swapchain's successor at the surface's new size.
    fn request_swapchain(&mut self, dimensions: [u32; 2]) -> (r: FrameAction)
        ensures
            final(self)@ == next_state(old(self)@, FrameEvent::SurfaceSize(dimensions)),
            r is RecreateSwapchain,
            r->RecreateSwapchain_0 == (SwapchainCreateInfo {
                image_extent: dimensions,
                ..old(self)@.swapchain
            }),
    {
        proof {
            use_type_invariant(&*self);
        }
        self.phase = FramePhase::AwaitingSwapchain { dimensions: dimensions };
        let old = self.current.swapchain;
        FrameAction::RecreateSwapchain(
            SwapchainCreateInfo {
                min_image_count: old.min_image_count,
                image_format: old.image_format,
                image_extent: dimensions,
                image_usage: old.image_usage,
                composite_alpha: old.composite_alpha,
            },
        )
    }

    /// Ends the frame; a suboptimal acquisition invalidates the surface for
    /// the frames to come.
    fn end_frame(&mut self, suboptimal: bool)
        ensures
            final(self)@ == (ContextView {
                need_swapchain_recreation: old(self)@.need_swapchain_recreation || suboptimal,
                phase: FramePhase::Idle,
                ..old(self)@
            }),
    {
        proof {
            use_type_invariant(&*self);
        }
        if suboptimal {
            self.need_swapchain_recreation = true;
        }
        self.phase = FramePhase::Idle;
    }

    /// Replaces everything that depends on the swapchain by what is built
    /// for the new dimensions and images, and makes the surface valid.
    fn recreate_swapchain(&mut self, dimensions: [u32; 2], new_images: Vec<ImageView>)
        requires
            new_images@.len() > 0,
        ensures
            final(self)@ == next_state(
                ContextView {
                    phase: FramePhase::AwaitingSwapchain { dimensions: dimensions },
                    ..old(self)@
                },
                FrameEvent::SwapchainRecreated(new_images),
            ),
    {
        proof {
            use_type_invariant(&*self);
        }
        let old = self.current.swapchain;
        let viewport = create_viewport(dimensions);
        let pipeline = create_pipeline(&self.render_pass, viewport);
        let (framebuffers, color_view, depth_view) = create_framebuffers(
            &self.render_pass,
            &new_images,
        );
        assert(framebuffers@ =~= Seq::new(
            new_images@.len(),
            |i: int| framebuffer_of(self.render_pass, new_images@, i),
        ));
        self.current = Generation {
            swapchain: SwapchainCreateInfo {
                min_image_count: old.min_image_count,
                image_format: old.image_format,
                image_extent: dimensions,
                image_usage: old.image_usage,
                composite_alpha: old.composite_alpha,
            },
            swapchain_images: new_images,
            viewport: viewport,
            dimensions: dimensions,
            pipeline: pipeline,
            framebuffers: framebuffers,
            color_view: color_view,
            depth_view: depth_view,
        };
        self.need_swapchain_recreation = false;
        self.phase = FramePhase::AwaitingImage;
    }
}

} // verus!
