use forward_renderer::data::{vertex_attributes, Vertex, VertexAttribute, VERTEX_STRIDE};
use forward_renderer::renderer::util::{
    create_framebuffers, create_pipeline, create_render_pass, create_swapchain, create_viewport,
    first_composite_alpha, CompareOp, CompositeAlpha, DepthState, Format, ImageView, LoadOp,
    PrimitiveTopology, SampleCount, StoreOp, SupportedCompositeAlpha, SurfaceCapabilities,
    COLOR_ATTACHMENT, DEPTH_ATTACHMENT, FINAL_COLOR_ATTACHMENT,
};

fn alpha(opaque: bool, pre: bool, post: bool, inherit: bool) -> SupportedCompositeAlpha {
    SupportedCompositeAlpha { opaque, pre_multiplied: pre, post_multiplied: post, inherit }
}

fn swapchain_view(w: u32, h: u32) -> ImageView {
    ImageView { dimensions: [w, h], format: Format::B8G8R8A8Srgb, samples: SampleCount::Sample1 }
}

#[test]
fn viewport_has_the_dimensions_of_the_surface() {
    let v = create_viewport([800, 600]);
    assert_eq!(v.origin, [0, 0]);
    assert_eq!(v.dimensions, [800, 600]);
    assert_eq!(v.depth_range, [0, 1]);
    assert!(v.y_up);
    let v = create_viewport([1920, 1080]);
    assert_eq!(v.dimensions, [1920, 1080]);
    assert_eq!(v.depth_range, [0, 1]);
}

#[test]
fn viewport_of_an_empty_and_of_the_largest_surface() {
    let v = create_viewport([0, 0]);
    assert_eq!(v.origin, [0, 0]);
    assert_eq!(v.dimensions, [0, 0]);
    let v = create_viewport([u32::MAX, u32::MAX]);
    assert_eq!(v.origin, [0, 0]);
    assert_eq!(v.dimensions, [u32::MAX, u32::MAX]);
    assert!(v.y_up);
}

#[test]
fn first_supported_alpha_follows_the_fixed_order() {
    assert_eq!(first_composite_alpha(&alpha(true, true, true, true)), Some(CompositeAlpha::Opaque));
    assert_eq!(
        first_composite_alpha(&alpha(false, true, true, true)),
        Some(CompositeAlpha::PreMultiplied)
    );
    assert_eq!(
        first_composite_alpha(&alpha(false, false, true, true)),
        Some(CompositeAlpha::PostMultiplied)
    );
    assert_eq!(first_composite_alpha(&alpha(false, false, false, true)), Some(CompositeAlpha::Inherit));
    assert_eq!(first_composite_alpha(&alpha(false, false, false, false)), None);
}

#[test]
fn swapchain_request_takes_minimum_count_and_window_size() {
    let caps = SurfaceCapabilities {
        min_image_count: 3,
        supported_composite_alpha: alpha(false, false, true, true),
    };
    let info = create_swapchain(&caps, [1280, 720], Format::B8G8R8A8Srgb);
    assert_eq!(info.min_image_count, 3);
    assert_eq!(info.image_format, Some(Format::B8G8R8A8Srgb));
    assert_eq!(info.image_extent, [1280, 720]);
    assert_eq!(info.composite_alpha, CompositeAlpha::PostMultiplied);
    assert!(info.image_usage.color_attachment);
    assert!(info.image_usage.transfer_dst);
    assert!(!info.image_usage.transfer_src);
    assert!(!info.image_usage.sampled);
    assert!(!info.image_usage.storage);
    assert!(!info.image_usage.depth_stencil_attachment);
    assert!(!info.image_usage.transient_attachment);
    assert!(!info.image_usage.input_attachment);
}

#[test]
fn render_pass_has_final_color_and_depth_attachments() {
    let rp = create_render_pass(Format::B8G8R8A8Srgb);
    assert_eq!((rp.resolve, rp.color, rp.depth_stencil), (0, 1, 2));
    assert_eq!((FINAL_COLOR_ATTACHMENT, COLOR_ATTACHMENT, DEPTH_ATTACHMENT), (0, 1, 2));
    let final_color = rp.attachments[0];
    assert_eq!(final_color.load, LoadOp::Clear);
    assert_eq!(final_color.store, StoreOp::Store);
    assert_eq!(final_color.format, Format::B8G8R8A8Srgb);
    assert_eq!(final_color.samples, SampleCount::Sample1);
    let color = rp.attachments[1];
    assert_eq!(color.load, LoadOp::Clear);
    assert_eq!(color.store, StoreOp::DontCare);
    assert_eq!(color.format, Format::B8G8R8A8Srgb);
    assert_eq!(color.samples, SampleCount::Sample4);
    let depth = rp.attachments[2];
    assert_eq!(depth.load, LoadOp::Clear);
    assert_eq!(depth.store, StoreOp::DontCare);
    assert_eq!(depth.format, Format::D32Sfloat);
    assert_eq!(depth.samples, SampleCount::Sample4);
}

#[test]
fn one_framebuffer_per_swapchain_image() {
    let rp = create_render_pass(Format::B8G8R8A8Srgb);
    let images = vec![swapchain_view(640, 480), swapchain_view(640, 480), swapchain_view(640, 480)];
    let (framebuffers, color, depth) = create_framebuffers(&rp, &images);
    assert_eq!(framebuffers.len(), 3);
    assert_eq!(
        color,
        ImageView { dimensions: [640, 480], format: Format::B8G8R8A8Srgb, samples: SampleCount::Sample4 }
    );
    assert_eq!(
        depth,
        ImageView { dimensions: [640, 480], format: Format::D32Sfloat, samples: SampleCount::Sample4 }
    );
    for (i, fb) in framebuffers.iter().enumerate() {
        assert_eq!(fb.swapchain_image, i);
        assert_eq!(fb.render_pass, rp);
        assert_eq!(fb.attachments, [images[i], color, depth]);
    }
}

#[test]
fn shared_attachments_take_the_size_of_the_first_image() {
    let rp = create_render_pass(Format::B8G8R8A8Srgb);
    let images = vec![swapchain_view(100, 50), swapchain_view(200, 70)];
    let (framebuffers, color, depth) = create_framebuffers(&rp, &images);
    assert_eq!(color.dimensions, [100, 50]);
    assert_eq!(depth.dimensions, [100, 50]);
    assert_eq!(framebuffers[1].attachments[0].dimensions, [200, 70]);
    assert_eq!(framebuffers[1].attachments[1].dimensions, [100, 50]);
}

#[test]
fn a_single_image_gives_a_single_framebuffer() {
    let rp = create_render_pass(Format::B8G8R8A8Srgb);
    let images = vec![swapchain_view(1, 1)];
    let (framebuffers, _, _) = create_framebuffers(&rp, &images);
    assert_eq!(framebuffers.len(), 1);
    assert_eq!(framebuffers[0].swapchain_image, 0);
}

#[test]
fn pipeline_is_fixed_but_for_pass_and_viewport() {
    let rp = create_render_pass(Format::B8G8R8A8Srgb);
    let viewport = create_viewport([1920, 1080]);
    let p = create_pipeline(&rp, viewport);
    assert_eq!(p.render_pass, rp);
    assert_eq!(p.subpass, 0);
    assert_eq!(p.viewport, viewport);
    assert_eq!(p.topology, PrimitiveTopology::TriangleList);
    assert_eq!(p.rasterization_samples, SampleCount::Sample4);
    assert_eq!(p.depth, Some(DepthState { compare_op: CompareOp::Less, write_enable: true }));
    assert_eq!(p.vertex_stride, 32);
    assert_eq!(p.vertex_input.to_vec(), vertex_attributes());
}

#[test]
fn vertex_layout_is_packed() {
    let layout = vertex_attributes();
    assert_eq!(
        layout,
        vec![
            VertexAttribute { location: 0, offset: 0, components: 3 },
            VertexAttribute { location: 1, offset: 12, components: 2 },
            VertexAttribute { location: 2, offset: 20, components: 3 },
        ]
    );
    let mut end = 0;
    for a in &layout {
        assert_eq!(a.offset, end);
        end = a.offset + 4 * a.components;
    }
    assert_eq!(end, VERTEX_STRIDE);
    assert_eq!(std::mem::size_of::<Vertex>(), VERTEX_STRIDE as usize);
}
