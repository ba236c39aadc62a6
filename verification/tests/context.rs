use forward_renderer::renderer::frame::{Command, Drawable, ModelData, ViewProjectionData, World};
use forward_renderer::renderer::material::ImageHandle;
use forward_renderer::renderer::mesh::DisplayMesh;
use forward_renderer::renderer::util::{
    create_pipeline, create_render_pass, create_viewport, CompositeAlpha, Format, ImageView,
    PhysicalDevice, PhysicalDeviceType, QueueFamily, SampleCount, SupportedCompositeAlpha,
    SurfaceCapabilities,
};
use forward_renderer::renderer::{
    device_create_info, instance_create_info, DeviceExtensions, Filter, FrameAction, FrameEvent,
    FramePhase, InstanceExtensions, Queue, Sampler, VulkanContext,
};
use forward_renderer::data::Vertex;
use forward_renderer::plugins::camera::{update_camera_dimensions, ComputedProjection};
use forward_renderer::plugins::renderer::{renderer_runner, LoopAction, LoopEvent};

fn devices() -> Vec<PhysicalDevice> {
    vec![
        PhysicalDevice {
            device_type: PhysicalDeviceType::IntegratedGpu,
            queue_families: vec![QueueFamily { supports_graphics: true, supports_surface: Some(true) }],
        },
        PhysicalDevice {
            device_type: PhysicalDeviceType::DiscreteGpu,
            queue_families: vec![
                QueueFamily { supports_graphics: false, supports_surface: Some(true) },
                QueueFamily { supports_graphics: true, supports_surface: Some(true) },
            ],
        },
    ]
}

fn caps() -> SurfaceCapabilities {
    SurfaceCapabilities {
        min_image_count: 2,
        supported_composite_alpha: SupportedCompositeAlpha {
            opaque: true,
            pre_multiplied: false,
            post_multiplied: false,
            inherit: true,
        },
    }
}

fn views(n: usize, w: u32, h: u32) -> Vec<ImageView> {
    vec![
        ImageView { dimensions: [w, h], format: Format::B8G8R8A8Srgb, samples: SampleCount::Sample1 };
        n
    ]
}

fn context() -> VulkanContext {
    VulkanContext::new_windowed([800, 600], &devices(), &caps(), views(2, 800, 600), ImageHandle(0))
}

fn empty_world() -> World<'static> {
    World { cameras: Vec::new(), drawables: Vec::new() }
}

fn step(ctx: &mut VulkanContext, event: FrameEvent, world: &World) -> FrameAction {
    assert!(ctx.accepts(&event));
    ctx.do_frame(event, world)
}

#[test]
fn new_context_is_built_for_the_window() {
    let ctx = context();
    assert_eq!(*ctx.gfx_queue(), Queue { physical_device: 1, family: 1 });
    assert_eq!(ctx.dimensions(), [800, 600]);
    assert!(!ctx.need_swapchain_recreation());
    assert_eq!(ctx.phase(), FramePhase::Idle);
    assert_eq!(ctx.viewport(), create_viewport([800, 600]));
    assert_eq!(ctx.render_pass(), create_render_pass(Format::B8G8R8A8Srgb));
    assert_eq!(ctx.pipeline(), create_pipeline(&ctx.render_pass(), ctx.viewport()));
    assert_eq!(ctx.swapchain().image_extent, [800, 600]);
    assert_eq!(ctx.swapchain().image_format, Some(Format::B8G8R8A8Srgb));
    assert_eq!(ctx.swapchain().min_image_count, 2);
    assert_eq!(ctx.swapchain().composite_alpha, CompositeAlpha::Opaque);
    assert_eq!(ctx.swapchain_images(), &views(2, 800, 600));
    assert_eq!(ctx.framebuffers().len(), 2);
    assert_eq!(ctx.color_view().samples, SampleCount::Sample4);
    assert_eq!(ctx.depth_view().format, Format::D32Sfloat);
    assert_eq!(ctx.sampler(), Sampler { mag_filter: Filter::Nearest, min_filter: Filter::Nearest });
}

#[test]
fn fallback_texture_is_one_white_pixel_on_the_device() {
    let ctx = VulkanContext::new_windowed([1, 1], &devices(), &caps(), views(1, 1, 1), ImageHandle(99));
    let dummy = ctx.dummy_texture();
    assert_eq!(dummy.data(), &vec![255, 255, 255, 255]);
    assert_eq!(dummy.size(), [1, 1]);
    assert_eq!(dummy.format(), Format::R8G8B8A8Unorm);
    assert_eq!(dummy.image(), Some(ImageHandle(99)));
}

#[test]
fn valid_surface_goes_straight_to_acquisition() {
    let mut ctx = context();
    let world = empty_world();
    assert!(matches!(step(&mut ctx, FrameEvent::RedrawRequested, &world), FrameAction::AcquireImage));
    assert_eq!(ctx.phase(), FramePhase::AwaitingImage);
    let action = step(&mut ctx, FrameEvent::ImageAcquired { image_index: 1, suboptimal: false }, &world);
    match action {
        FrameAction::SubmitAndPresent { image_index, commands } => {
            assert_eq!(image_index, 1);
            assert_eq!(commands.len(), 2);
            assert!(matches!(commands[0], Command::BeginRenderPass { framebuffer: 1, .. }));
            assert_eq!(commands[1], Command::EndRenderPass);
        }
        other => panic!("unexpected {:?}", other),
    }
    assert_eq!(ctx.phase(), FramePhase::Idle);
    assert!(!ctx.need_swapchain_recreation());
    assert_eq!(ctx.dimensions(), [800, 600]);
}

#[test]
fn resize_rebuilds_at_the_new_size_before_drawing() {
    let mut ctx = context();
    let old_pass = ctx.render_pass();
    let cube = DisplayMesh::new(vec![Vertex::default(); 24], vec![0; 36]);
    let camera = ViewProjectionData { camera_position: [0; 3], view: [[1; 4]; 4], projection: [[2; 4]; 4] };
    let world = World {
        cameras: vec![camera],
        drawables: vec![Drawable { model: ModelData { model: [[3; 4]; 4] }, mesh: Some(&cube), material: None }],
    };
    ctx.invalidate_surface();
    assert!(ctx.need_swapchain_recreation());
    assert!(matches!(step(&mut ctx, FrameEvent::RedrawRequested, &world), FrameAction::QuerySurfaceSize));
    let action = step(&mut ctx, FrameEvent::SurfaceSize([1920, 1080]), &world);
    match action {
        FrameAction::RecreateSwapchain(info) => {
            assert_eq!(info.image_extent, [1920, 1080]);
            assert_eq!(info.min_image_count, 2);
            assert_eq!(info.image_format, Some(Format::B8G8R8A8Srgb));
            assert_eq!(info.composite_alpha, CompositeAlpha::Opaque);
        }
        other => panic!("unexpected {:?}", other),
    }
    assert_eq!(ctx.dimensions(), [800, 600]);
    let action = step(&mut ctx, FrameEvent::SwapchainRecreated(views(3, 1920, 1080)), &world);
    assert!(matches!(action, FrameAction::AcquireImage));
    assert!(!ctx.need_swapchain_recreation());
    assert_eq!(ctx.dimensions(), [1920, 1080]);
    assert_eq!(ctx.framebuffers().len(), 3);
    assert_eq!(ctx.swapchain_images().len(), 3);
    assert_eq!(ctx.viewport().dimensions, [1920, 1080]);
    assert_eq!(ctx.viewport().dimensions, ctx.dimensions());
    assert_eq!(ctx.viewport().origin, [0, 0]);
    assert_eq!(ctx.pipeline().viewport, ctx.viewport());
    assert_eq!(ctx.swapchain().image_extent, [1920, 1080]);
    assert_eq!(ctx.color_view().dimensions, [1920, 1080]);
    assert_eq!(ctx.depth_view().dimensions, [1920, 1080]);
    assert_eq!(ctx.render_pass(), old_pass);
    for (i, fb) in ctx.framebuffers().iter().enumerate() {
        assert_eq!(fb.swapchain_image, i);
        assert_eq!(fb.attachments[0].dimensions, [1920, 1080]);
        assert_eq!(fb.attachments[1], ctx.color_view());
        assert_eq!(fb.attachments[2], ctx.depth_view());
    }
    let action = step(&mut ctx, FrameEvent::ImageAcquired { image_index: 2, suboptimal: false }, &world);
    match action {
        FrameAction::SubmitAndPresent { image_index, commands } => {
            assert_eq!(image_index, 2);
            assert_eq!(commands.len(), 8);
            assert_eq!(commands[2], Command::BindViewProjection { set: 0, data: camera });
            assert_eq!(
                commands[6],
                Command::DrawIndexed {
                    index_count: 36,
                    instance_count: 1,
                    first_index: 0,
                    vertex_offset: 0,
                    first_instance: 0,
                }
            );
        }
        other => panic!("unexpected {:?}", other),
    }
    assert_eq!(ctx.phase(), FramePhase::Idle);
}

#[test]
fn suboptimal_acquisition_defers_recreation_by_one_frame() {
    let mut ctx = context();
    let world = empty_world();
    step(&mut ctx, FrameEvent::RedrawRequested, &world);
    let action = step(&mut ctx, FrameEvent::ImageAcquired { image_index: 0, suboptimal: true }, &world);
    assert!(matches!(action, FrameAction::SubmitAndPresent { image_index: 0, .. }));
    assert!(ctx.need_swapchain_recreation());
    assert_eq!(ctx.framebuffers().len(), 2);
    assert!(matches!(step(&mut ctx, FrameEvent::RedrawRequested, &world), FrameAction::QuerySurfaceSize));
}

#[test]
fn events_out_of_turn_are_not_accepted() {
    let mut ctx = context();
    let world = empty_world();
    assert!(ctx.accepts(&FrameEvent::RedrawRequested));
    assert!(!ctx.accepts(&FrameEvent::SurfaceSize([1, 1])));
    assert!(!ctx.accepts(&FrameEvent::SwapchainRecreated(views(1, 1, 1))));
    assert!(!ctx.accepts(&FrameEvent::ImageAcquired { image_index: 0, suboptimal: false }));
    step(&mut ctx, FrameEvent::RedrawRequested, &world);
    assert!(!ctx.accepts(&FrameEvent::RedrawRequested));
    assert!(ctx.accepts(&FrameEvent::ImageAcquired { image_index: 1, suboptimal: false }));
    assert!(!ctx.accepts(&FrameEvent::ImageAcquired { image_index: 2, suboptimal: false }));
}

#[test]
fn a_swapchain_without_images_is_not_accepted() {
    let mut ctx = context();
    let world = empty_world();
    ctx.invalidate_surface();
    step(&mut ctx, FrameEvent::RedrawRequested, &world);
    step(&mut ctx, FrameEvent::SurfaceSize([10, 10]), &world);
    assert_eq!(ctx.phase(), FramePhase::AwaitingSwapchain { dimensions: [10, 10] });
    assert!(!ctx.accepts(&FrameEvent::SwapchainRecreated(Vec::new())));
    assert!(ctx.accepts(&FrameEvent::SwapchainRecreated(views(1, 10, 10))));
}

#[test]
fn invalidating_twice_is_invalidating_once() {
    let mut ctx = context();
    ctx.invalidate_surface();
    ctx.invalidate_surface();
    assert!(ctx.need_swapchain_recreation());
    assert_eq!(ctx.phase(), FramePhase::Idle);
    assert_eq!(ctx.dimensions(), [800, 600]);
}

#[test]
fn instance_gets_the_debug_extension_and_no_layers() {
    let required = InstanceExtensions {
        khr_surface: true,
        khr_xlib_surface: false,
        khr_xcb_surface: true,
        khr_wayland_surface: true,
        khr_android_surface: false,
        khr_win32_surface: false,
        mvk_ios_surface: false,
        mvk_macos_surface: false,
        khr_get_physical_device_properties2: true,
        khr_get_surface_capabilities2: false,
        ext_debug_utils: false,
    };
    let info = instance_create_info(required);
    assert_eq!(info.enabled_layers, 0);
    assert_eq!(info.enabled_extensions, InstanceExtensions { ext_debug_utils: true, ..required });
}

#[test]
fn device_gets_the_wanted_extensions_it_supports() {
    let both = DeviceExtensions { khr_swapchain: true, khr_maintenance1: true };
    let one = DeviceExtensions { khr_swapchain: true, khr_maintenance1: false };
    let none = DeviceExtensions { khr_swapchain: false, khr_maintenance1: false };
    assert_eq!(device_create_info(3, both).enabled_extensions, both);
    assert_eq!(device_create_info(3, one).enabled_extensions, one);
    assert_eq!(device_create_info(3, none).enabled_extensions, none);
    assert_eq!(device_create_info(3, both).queue_family, 3);
}

fn perspective(fov: f32, aspect: f32, near: f32, far: f32) -> [[u32; 4]; 4] {
    let f = 1.0 / (fov / 2.0).tan();
    let columns = [
        [f / aspect, 0.0, 0.0, 0.0],
        [0.0, f, 0.0, 0.0],
        [0.0, 0.0, far / (near - far), -1.0],
        [0.0, 0.0, near * far / (near - far), 0.0],
    ];
    columns.map(|c: [f32; 4]| c.map(f32::to_bits))
}

#[test]
fn cube_is_drawn_with_the_projection_of_the_new_aspect_ratio() {
    let mut ctx = context();
    let fov = 60.0f32.to_radians();
    let mut computed = ComputedProjection::new(
        [800.0f32.to_bits(), 600.0f32.to_bits()],
        perspective(fov, 800.0 / 600.0, 0.01, 100.0),
    );

    let answer = renderer_runner(&mut ctx, LoopEvent::Resized([1920, 1080]));
    assert!(ctx.need_swapchain_recreation());
    let size = match answer.action {
        LoopAction::SendWindowResized(size) => size,
        other => panic!("unexpected {:?}", other),
    };
    let resizes = vec![[(size[0] as f32).to_bits(), (size[1] as f32).to_bits()]];
    if let Some(dimensions) = update_camera_dimensions(&resizes) {
        let aspect = f32::from_bits(dimensions[0]) / f32::from_bits(dimensions[1]);
        computed = ComputedProjection::new(dimensions, perspective(fov, aspect, 0.01, 100.0));
    }
    assert_eq!(computed.dimensions(), [1920.0f32.to_bits(), 1080.0f32.to_bits()]);
    let expected = (1.0 / (fov / 2.0).tan()) / (1920.0f32 / 1080.0f32);
    assert_eq!(f32::from_bits(computed.transform_matrix()[0][0]), expected);

    let cube = DisplayMesh::new(vec![Vertex::default(); 24], vec![0; 36]);
    let camera = ViewProjectionData {
        camera_position: [0.0f32.to_bits(), 5.0f32.to_bits(), 5.0f32.to_bits()],
        view: [[0; 4]; 4],
        projection: *computed.transform_matrix(),
    };
    let world = World {
        cameras: vec![camera],
        drawables: vec![Drawable { model: ModelData { model: [[0; 4]; 4] }, mesh: Some(&cube), material: None }],
    };
    step_through_recreation(&mut ctx, &world, [1920, 1080], 3);
    assert_eq!(ctx.viewport().dimensions, [1920, 1080]);
    assert_eq!(ctx.pipeline().viewport.dimensions, [1920, 1080]);
    assert_eq!(ctx.framebuffers().len(), 3);
    match step(&mut ctx, FrameEvent::ImageAcquired { image_index: 0, suboptimal: false }, &world) {
        FrameAction::SubmitAndPresent { image_index, commands } => {
            assert_eq!(image_index, 0);
            match commands[2] {
                Command::BindViewProjection { set, data } => {
                    assert_eq!(set, 0);
                    assert_eq!(f32::from_bits(data.projection[0][0]), expected);
                    assert_eq!(data, camera);
                }
                other => panic!("unexpected {:?}", other),
            }
            assert!(matches!(commands[6], Command::DrawIndexed { index_count: 36, .. }));
        }
        other => panic!("unexpected {:?}", other),
    }
}

fn step_through_recreation(ctx: &mut VulkanContext, world: &World, size: [u32; 2], images: usize) {
    assert!(matches!(step(ctx, FrameEvent::RedrawRequested, world), FrameAction::QuerySurfaceSize));
    assert!(matches!(step(ctx, FrameEvent::SurfaceSize(size), world), FrameAction::RecreateSwapchain(_)));
    let recreated = FrameEvent::SwapchainRecreated(views(images, size[0], size[1]));
    assert!(matches!(step(ctx, recreated, world), FrameAction::AcquireImage));
}
