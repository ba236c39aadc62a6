//! Device selection and the descriptions of swapchain-dependent objects.

use crate::data::{vertex_layout, VertexAttribute, VERTEX_STRIDE};
use vstd::prelude::*;

verus! {

/// The kind of a physical device, as the driver reports it.
#[derive(Clone, Copy, Debug, PartialEq, Eq, Structural)]
pub enum PhysicalDeviceType {
    IntegratedGpu,
    DiscreteGpu,
    VirtualGpu,
    Cpu,
    Other,
}

/// What the selection needs to know of one queue family.
#[derive(Clone, Copy, Debug, PartialEq, Eq, Structural)]
pub struct QueueFamily {
    pub supports_graphics: bool,
    /// The answer to the surface-support query; `None` when the query failed.
    pub supports_surface: Option<bool>,
}

/// What the selection needs to know of one physical device.
#[derive(Debug)]
pub struct PhysicalDevice {
    pub device_type: PhysicalDeviceType,
    pub queue_families: Vec<QueueFamily>,
}

/// The preference rank of a device kind: lower is preferred.
pub open spec fn device_rank(t: PhysicalDeviceType) -> int {
    match t {
        PhysicalDeviceType::DiscreteGpu => 0,
        PhysicalDeviceType::IntegratedGpu => 1,
        PhysicalDeviceType::VirtualGpu => 2,
        PhysicalDeviceType::Cpu => 3,
        PhysicalDeviceType::Other => 4,
    }
}

/// A family can both draw and present to the surface.
pub open spec fn family_usable(q: QueueFamily) -> bool {
    q.supports_graphics && q.supports_surface == Some(true)
}

/// `q` is the first usable family of `families`.
pub open spec fn is_first_usable(families: Seq<QueueFamily>, q: int) -> bool {
    &&& 0 <= q < families.len()
    &&& family_usable(families[q])
    &&& forall|j: int| 0 <= j < q ==> !family_usable(#[trigger] families[j])
}

/// The device has at least one usable family.
pub open spec fn device_suitable(d: PhysicalDevice) -> bool {
    exists|q: int| 0 <= q < d.queue_families@.len() && family_usable(#[trigger] d.queue_families@[q])
}

/// Some device of the list is suitable.
pub open spec fn any_suitable(devices: Seq<PhysicalDevice>) -> bool {
    exists|i: int| 0 <= i < devices.len() && device_suitable(#[trigger] devices[i])
}

/// `(d, q)` is the choice: `d` is the suitable device of least rank, the
/// earliest among equals, and `q` is its first usable family.
pub open spec fn is_selection(devices: Seq<PhysicalDevice>, d: int, q: int) -> bool {
    &&& 0 <= d < devices.len()
    &&& is_first_usable(devices[d].queue_families@, q)
    &&& forall|i: int|
        0 <= i < devices.len() && device_suitable(#[trigger] devices[i]) ==> {
            &&& device_rank(devices[d].device_type) <= device_rank(devices[i].device_type)
            &&& i < d ==> device_rank(devices[d].device_type) < device_rank(devices[i].device_type)
        }
}

/// The choice is determined by the list: two selections from the same list
/// are the same device and the same family.
pub proof fn selection_is_unique(devices: Seq<PhysicalDevice>, d1: int, q1: int, d2: int, q2: int)
    requires
        is_selection(devices, d1, q1),
        is_selection(devices, d2, q2),
    ensures
        d1 == d2,
        q1 == q2,
{
    assert(device_suitable(devices[d1])) by {
        assert(family_usable(devices[d1].queue_families@[q1]));
    }
    assert(device_suitable(devices[d2])) by {
        assert(family_usable(devices[d2].queue_families@[q2]));
    }
    if d1 < d2 {
        assert(device_rank(devices[d2].device_type) < device_rank(devices[d1].device_type));
    } else if d2 < d1 {
        assert(device_rank(devices[d1].device_type) < device_rank(devices[d2].device_type));
    }
    let families = devices[d1].queue_families@;
    if q1 < q2 {
        assert(!family_usable(families[q1]));
    } else if q2 < q1 {
        assert(!family_usable(families[q2]));
    }
}

/// The preference rank of a device kind.
pub fn rank_of(t: PhysicalDeviceType) -> (r: u8)
    ensures
        r == device_rank(t),
{
    match t {
        PhysicalDeviceType::DiscreteGpu => 0,
        PhysicalDeviceType::IntegratedGpu => 1,
        PhysicalDeviceType::VirtualGpu => 2,
        PhysicalDeviceType::Cpu => 3,
        PhysicalDeviceType::Other => 4,
    }
}

/// The first family of the device that can draw and present, if any.
pub fn find_queue_family(device: &PhysicalDevice) -> (r: Option<usize>)
    ensures
        r.is_some() <==> device_suitable(*device),
        r.is_some() ==> is_first_usable(device.queue_families@, r.unwrap() as int),
{
    let mut j: usize = 0;
    while j < device.queue_families.len()
        invariant
            j <= device.queue_families@.len(),
            forall|k: int| 0 <= k < j ==> !family_usable(#[trigger] device.queue_families@[k]),
        decreases device.queue_families@.len() - j,
    {
        let q = device.queue_families[j];
        let presents = match q.supports_surface {
            Some(b) => b,
            None => false,
        };
        if q.supports_graphics && presents {
            return Some(j);
        }
        j += 1;
    }
    None
}

/// Whether the list holds a device that `select_physical_device` can choose.
pub fn has_suitable_device(devices: &Vec<PhysicalDevice>) -> (r: bool)
    ensures
        r == any_suitable(devices@),
{
    let mut i: usize = 0;
    while i < devices.len()
        invariant
            i <= devices@.len(),
            forall|k: int| 0 <= k < i ==> !device_suitable(#[trigger] devices@[k]),
        decreases devices@.len() - i,
    {
        if find_queue_family(&devices[i]).is_some() {
            return true;
        }
        i += 1;
    }
    false
}

/// Chooses the device to render with and the queue family to submit to:
/// among the devices that have a family able to draw and to present, the one
/// of the most preferred kind (discrete, integrated, virtual, software,
/// other), the earliest in the list among equals; with it, its first such
/// family.
pub fn select_physical_device(devices: &Vec<PhysicalDevice>) -> (r: (usize, usize))
    requires
        any_suitable(devices@),
    ensures
        is_selection(devices@, r.0 as int, r.1 as int),
{
    let mut best: Option<(usize, usize)> = None;
    let mut best_rank: u8 = 5;
    let mut i: usize = 0;
    while i < devices.len()
        invariant
            i <= devices@.len(),
            best.is_none() ==> forall|k: int|
                0 <= k < i ==> !device_suitable(#[trigger] devices@[k]),
            best.is_some() ==> {
                &&& best.unwrap().0 < i
                &&& best_rank == device_rank(devices@[best.unwrap().0 as int].device_type)
                &&& is_first_usable(
                    devices@[best.unwrap().0 as int].queue_families@,
                    best.unwrap().1 as int,
                )
                &&& forall|k: int|
                    0 <= k < i && device_suitable(#[trigger] devices@[k]) ==> {
                        &&& best_rank <= device_rank(devices@[k].device_type)
                        &&& k < best.unwrap().0 ==> best_rank < device_rank(
                            devices@[k].device_type,
                        )
                    }
            },
        decreases devices@.len() - i,
    {
        match find_queue_family(&devices[i]) {
            Some(q) => {
                let r = rank_of(devices[i].device_type);
                if best.is_none() || r < best_rank {
                    best = Some((i, q));
                    best_rank = r;
                }
            },
            None => {},
        }
        i += 1;
    }
    match best {
        Some(choice) => choice,
        None => {
            proof {
                let w = choose|k: int| 0 <= k < devices@.len() && device_suitable(#[trigger] devices@[k]);
                assert(device_suitable(devices@[w]));
            }
            (0, 0)
        },
    }
}

/// A pixel format.
#[derive(Clone, Copy, Debug, PartialEq, Eq, Structural)]
pub enum Format {
    B8G8R8A8Srgb,
    R8G8B8A8Unorm,
    D32Sfloat,
}

/// The number of samples per pixel of an image.
#[derive(Clone, Copy, Debug, PartialEq, Eq, Structural)]
pub enum SampleCount {
    Sample1,
    Sample4,
}

/// How the alpha channel of the window's pixels is treated.
#[derive(Clone, Copy, Debug, PartialEq, Eq, Structural)]
pub enum CompositeAlpha {
    Opaque,
    PreMultiplied,
    PostMultiplied,
    Inherit,
}

/// The alpha modes that a surface supports.
#[derive(Clone, Copy, Debug, PartialEq, Eq, Structural)]
pub struct SupportedCompositeAlpha {
    pub opaque: bool,
    pub pre_multiplied: bool,
    pub post_multiplied: bool,
    pub inherit: bool,
}

/// What the swapchain request needs to know of a surface.
#[derive(Clone, Copy, Debug, PartialEq, Eq, Structural)]
pub struct SurfaceCapabilities {
    pub min_image_count: u32,
    pub supported_composite_alpha: SupportedCompositeAlpha,
}

/// The uses that an image is created for.
#[derive(Clone, Copy, Debug, PartialEq, Eq, Structural)]
pub struct ImageUsage {
    pub transfer_src: bool,
    pub transfer_dst: bool,
    pub sampled: bool,
    pub storage: bool,
    pub color_attachment: bool,
    pub depth_stencil_attachment: bool,
    pub transient_attachment: bool,
    pub input_attachment: bool,
}

/// The parameters a swapchain is created with; what is not listed is left
/// at the device's default.
#[derive(Clone, Copy, Debug, PartialEq, Eq)]
pub struct SwapchainCreateInfo {
    pub min_image_count: u32,
    pub image_format: Option<Format>,
    pub image_extent: [u32; 2],
    pub image_usage: ImageUsage,
    pub composite_alpha: CompositeAlpha,
}

/// The first supported alpha mode in the order opaque, pre-multiplied,
/// post-multiplied, inherit.
pub open spec fn first_supported(s: SupportedCompositeAlpha) -> Option<CompositeAlpha> {
    if s.opaque {
        Some(CompositeAlpha::Opaque)
    } else if s.pre_multiplied {
        Some(CompositeAlpha::PreMultiplied)
    } else if s.post_multiplied {
        Some(CompositeAlpha::PostMultiplied)
    } else if s.inherit {
        Some(CompositeAlpha::Inherit)
    } else {
        None
    }
}

/// The usage of swapchain images: rendered into and copied into, nothing
/// else.
pub open spec fn swapchain_image_usage() -> ImageUsage {
    ImageUsage {
        transfer_src: false,
        transfer_dst: true,
        sampled: false,
        storage: false,
        color_attachment: true,
        depth_stencil_attachment: false,
        transient_attachment: false,
        input_attachment: false,
    }
}

/// The request for the first swapchain of a surface.
pub open spec fn swapchain_request(
    caps: SurfaceCapabilities,
    window_size: [u32; 2],
    format: Format,
) -> SwapchainCreateInfo {
    SwapchainCreateInfo {
        min_image_count: caps.min_image_count,
        image_format: Some(format),
        image_extent: window_size,
        image_usage: swapchain_image_usage(),
        composite_alpha: first_supported(caps.supported_composite_alpha).unwrap(),
    }
}

/// The first alpha mode that the surface supports, if it supports any.
pub fn first_composite_alpha(s: &SupportedCompositeAlpha) -> (r: Option<CompositeAlpha>)
    ensures
        r == first_supported(*s),
{
    if s.opaque {
        Some(CompositeAlpha::Opaque)
    } else if s.pre_multiplied {
        Some(CompositeAlpha::PreMultiplied)
    } else if s.post_multiplied {
        Some(CompositeAlpha::PostMultiplied)
    } else if s.inherit {
        Some(CompositeAlpha::Inherit)
    } else {
        None
    }
}

/// Describes the swapchain to create for a surface: as few images as the
/// surface allows, of the window's size and the given format, used as colour
/// attachment and transfer destination, with the first alpha mode that the
/// surface supports.
pub fn create_swapchain(
    caps: &SurfaceCapabilities,
    window_size: [u32; 2],
    format: Format,
) -> (r: SwapchainCreateInfo)
    requires
        first_supported(caps.supported_composite_alpha).is_some(),
    ensures
        r == swapchain_request(*caps, window_size, format),
{
    let alpha = match first_composite_alpha(&caps.supported_composite_alpha) {
        Some(a) => a,
        None => CompositeAlpha::Opaque,
    };
    SwapchainCreateInfo {
        min_image_count: caps.min_image_count,
        image_format: Some(format),
        image_extent: window_size,
        image_usage: ImageUsage {
            transfer_src: false,
            transfer_dst: true,
            sampled: false,
            storage: false,
            color_attachment: true,
            depth_stencil_attachment: false,
            transient_attachment: false,
            input_attachment: false,
        },
        composite_alpha: alpha,
    }
}

/// The rectangle of the framebuffer that is drawn into, in whole pixels from
/// its upper left corner, with its depth range and the direction of the
/// vertical axis.
#[derive(Clone, Copy, Debug, PartialEq, Eq)]
pub struct Viewport {
    pub origin: [u32; 2],
    pub dimensions: [u32; 2],
    pub depth_range: [u32; 2],
    /// The vertical axis of what is drawn points up the rectangle.
    pub y_up: bool,
}

/// The viewport of a surface of the given size: the whole surface, depth
/// from 0 to 1, the vertical axis pointing up.
pub open spec fn viewport_of(dimensions: [u32; 2]) -> Viewport {
    Viewport { origin: [0u32, 0u32], dimensions: dimensions, depth_range: [0u32, 1u32], y_up: true }
}

/// The viewport that covers a surface of the given size.
pub fn create_viewport(dimensions: [u32; 2]) -> (r: Viewport)
    ensures
        r == viewport_of(dimensions),
        r.dimensions == dimensions,
{
    Viewport { origin: [0u32, 0u32], dimensions: dimensions, depth_range: [0u32, 1u32], y_up: true }
}

/// What happens to an attachment's contents when a render pass begins.
#[derive(Clone, Copy, Debug, PartialEq, Eq, Structural)]
pub enum LoadOp {
    Load,
    Clear,
    DontCare,
}

/// What happens to an attachment's contents when a render pass ends.
#[derive(Clone, Copy, Debug, PartialEq, Eq, Structural)]
pub enum StoreOp {
    Store,
    DontCare,
}

/// One attachment of a render pass.
#[derive(Clone, Copy, Debug, PartialEq, Eq, Structural)]
pub struct AttachmentDescription {
    pub load: LoadOp,
    pub store: StoreOp,
    pub format: Format,
    pub samples: SampleCount,
}

/// A render pass of one subpass over three attachments, which the subpass
/// refers to by their index.
#[derive(Clone, Copy, Debug, PartialEq, Eq)]
pub struct RenderPass {
    pub attachments: [AttachmentDescription; 3],
    pub color: usize,
    pub depth_stencil: usize,
    pub resolve: usize,
}

/// The attachment index of the presentable image.
pub const FINAL_COLOR_ATTACHMENT: usize = 0;

/// The attachment index of the multisampled colour image.
pub const COLOR_ATTACHMENT: usize = 1;

/// The attachment index of the multisampled depth image.
pub const DEPTH_ATTACHMENT: usize = 2;

/// The render pass of the renderer: a single-sample final colour attachment
/// that is cleared and stored, a four-sample colour attachment and a
/// four-sample depth attachment that are cleared and discarded. The subpass
/// draws into the multisampled pair and resolves into the final attachment.
pub open spec fn render_pass_of(format: Format) -> RenderPass {
    RenderPass {
        attachments: [
            AttachmentDescription {
                load: LoadOp::Clear,
                store: StoreOp::Store,
                format: format,
                samples: SampleCount::Sample1,
            },
            AttachmentDescription {
                load: LoadOp::Clear,
                store: StoreOp::DontCare,
                format: format,
                samples: SampleCount::Sample4,
            },
            AttachmentDescription {
                load: LoadOp::Clear,
                store: StoreOp::DontCare,
                format: Format::D32Sfloat,
                samples: SampleCount::Sample4,
            },
        ],
        color: 1,
        depth_stencil: 2,
        resolve: 0,
    }
}

/// Describes the render pass for a presentable image of the given format.
pub fn create_render_pass(format: Format) -> (r: RenderPass)
    ensures
        r == render_pass_of(format),
{
    RenderPass {
        attachments: [
            AttachmentDescription {
                load: LoadOp::Clear,
                store: StoreOp::Store,
                format: format,
                samples: SampleCount::Sample1,
            },
            AttachmentDescription {
                load: LoadOp::Clear,
                store: StoreOp::DontCare,
                format: format,
                samples: SampleCount::Sample4,
            },
            AttachmentDescription {
                load: LoadOp::Clear,
                store: StoreOp::DontCare,
                format: Format::D32Sfloat,
                samples: SampleCount::Sample4,
            },
        ],
        color: COLOR_ATTACHMENT,
        depth_stencil: DEPTH_ATTACHMENT,
        resolve: FINAL_COLOR_ATTACHMENT,
    }
}

/// A view of an image: what a framebuffer needs to know of it.
#[derive(Clone, Copy, Debug, PartialEq, Eq)]
pub struct ImageView {
    pub dimensions: [u32; 2],
    pub format: Format,
    pub samples: SampleCount,
}

/// A framebuffer: the swapchain image it presents through and its three
/// attachments in the render pass's order.
#[derive(Clone, Copy, Debug, PartialEq, Eq)]
pub struct Framebuffer {
    pub render_pass: RenderPass,
    pub swapchain_image: usize,
    pub attachments: [ImageView; 3],
}

/// The multisampled colour attachment for the given swapchain images: the
/// size and format of the first, four samples.
pub open spec fn color_view_of(images: Seq<ImageView>) -> ImageView {
    ImageView {
        dimensions: images[0].dimensions,
        format: images[0].format,
        samples: SampleCount::Sample4,
    }
}

/// The multisampled depth attachment for the given swapchain images: the
/// size of the first, 32-bit float depth, four samples.
pub open spec fn depth_view_of(images: Seq<ImageView>) -> ImageView {
    ImageView {
        dimensions: images[0].dimensions,
        format: Format::D32Sfloat,
        samples: SampleCount::Sample4,
    }
}

/// The framebuffer of swapchain image `i`.
pub open spec fn framebuffer_of(render_pass: RenderPass, images: Seq<ImageView>, i: int)
    -> Framebuffer {
    Framebuffer {
        render_pass: render_pass,
        swapchain_image: i as usize,
        attachments: [images[i], color_view_of(images), depth_view_of(images)],
    }
}

/// `framebuffers` is the set built for `images`: one per image, in order.
pub open spec fn framebuffers_for(
    render_pass: RenderPass,
    images: Seq<ImageView>,
    framebuffers: Seq<Framebuffer>,
) -> bool {
    &&& framebuffers.len() == images.len()
    &&& forall|i: int|
        0 <= i < images.len() ==> #[trigger] framebuffers[i] == framebuffer_of(
            render_pass,
            images,
            i,
        )
}

/// Describes the framebuffers for a chain of swapchain images: one
/// framebuffer per image, in order, each made of that image and of one
/// shared pair of four-sample colour and depth attachments that have the
/// size of the first image. Returns the framebuffers and the shared colour
/// and depth views.
pub fn create_framebuffers(render_pass: &RenderPass, swapchain_images: &Vec<ImageView>) -> (r: (
    Vec<Framebuffer>,
    ImageView,
    ImageView,
))
    requires
        swapchain_images@.len() > 0,
    ensures
        framebuffers_for(*render_pass, swapchain_images@, r.0@),
        r.1 == color_view_of(swapchain_images@),
        r.2 == depth_view_of(swapchain_images@),
{
    let dimensions = swapchain_images[0].dimensions;
    let depth_view = ImageView {
        dimensions: dimensions,
        format: Format::D32Sfloat,
        samples: SampleCount::Sample4,
    };
    let color_view = ImageView {
        dimensions: dimensions,
        format: swapchain_images[0].format,
        samples: SampleCount::Sample4,
    };
    let mut framebuffers: Vec<Framebuffer> = Vec::new();
    let mut i: usize = 0;
    while i < swapchain_images.len()
        invariant
            i <= swapchain_images@.len(),
            swapchain_images@.len() > 0,
            color_view == color_view_of(swapchain_images@),
            depth_view == depth_view_of(swapchain_images@),
            framebuffers@.len() == i,
            forall|k: int|
                0 <= k < i ==> #[trigger] framebuffers@[k] == framebuffer_of(
                    *render_pass,
                    swapchain_images@,
                    k,
                ),
        decreases swapchain_images@.len() - i,
    {
        framebuffers.push(
            Framebuffer {
                render_pass: *render_pass,
                swapchain_image: i,
                attachments: [swapchain_images[i], color_view, depth_view],
            },
        );
        i += 1;
    }
    (framebuffers, color_view, depth_view)
}

/// How vertices are grouped into primitives.
#[derive(Clone, Copy, Debug, PartialEq, Eq, Structural)]
pub enum PrimitiveTopology {
    PointList,
    LineList,
    TriangleList,
}

/// The comparison of a depth test.
#[derive(Clone, Copy, Debug, PartialEq, Eq, Structural)]
pub enum CompareOp {
    Never,
    Less,
    Always,
}

/// The depth stage of a pipeline.
#[derive(Clone, Copy, Debug, PartialEq, Eq, Structural)]
pub struct DepthState {
    pub compare_op: CompareOp,
    pub write_enable: bool,
}

/// A graphics pipeline. It is fixed once built: a change of any part means a
/// new pipeline.
#[derive(Clone, Copy, Debug, PartialEq, Eq)]
pub struct GraphicsPipeline {
    pub render_pass: RenderPass,
    pub subpass: u32,
    pub vertex_stride: u32,
    pub vertex_input: [VertexAttribute; 3],
    pub topology: PrimitiveTopology,
    pub rasterization_samples: SampleCount,
    pub viewport: Viewport,
    pub depth: Option<DepthState>,
}

/// The pipeline for a render pass and a viewport: subpass 0 of the pass, the
/// layout of `Vertex` as vertex input, triangle lists, four samples, the
/// given viewport with no scissor of its own, and a depth test that passes
/// nearer fragments and writes their depth.
pub open spec fn pipeline_of(render_pass: RenderPass, viewport: Viewport) -> GraphicsPipeline {
    GraphicsPipeline {
        render_pass: render_pass,
        subpass: 0,
        vertex_stride: VERTEX_STRIDE,
        vertex_input: [
            VertexAttribute { location: 0, offset: 0, components: 3 },
            VertexAttribute { location: 1, offset: 12, components: 2 },
            VertexAttribute { location: 2, offset: 20, components: 3 },
        ],
        topology: PrimitiveTopology::TriangleList,
        rasterization_samples: SampleCount::Sample4,
        viewport: viewport,
        depth: Some(DepthState { compare_op: CompareOp::Less, write_enable: true }),
    }
}

/// Describes the graphics pipeline for a render pass and a viewport.
pub fn create_pipeline(render_pass: &RenderPass, viewport: Viewport) -> (r: GraphicsPipeline)
    ensures
        r == pipeline_of(*render_pass, viewport),
        r.vertex_input@ == vertex_layout(),
{
    let r = GraphicsPipeline {
        render_pass: *render_pass,
        subpass: 0,
        vertex_stride: VERTEX_STRIDE,
        vertex_input: [
            VertexAttribute { location: 0, offset: 0, components: 3 },
            VertexAttribute { location: 1, offset: 12, components: 2 },
            VertexAttribute { location: 2, offset: 20, components: 3 },
        ],
        topology: PrimitiveTopology::TriangleList,
        rasterization_samples: SampleCount::Sample4,
        viewport: viewport,
        depth: Some(DepthState { compare_op: CompareOp::Less, write_enable: true }),
    };
    assert(r.vertex_input@ =~= vertex_layout());
    r
}

} // verus!
