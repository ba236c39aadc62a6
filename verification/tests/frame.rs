use forward_renderer::data::Vertex;
use forward_renderer::renderer::frame::{
    record_frame, resolve_material, ClearValue, Command, Drawable, MaterialData, ModelData,
    TextureBinding, ViewProjectionData, World, F32_ONE, F32_ZERO,
};
use forward_renderer::renderer::material::{DisplayMaterial, ImageHandle, TextureImage};
use forward_renderer::renderer::mesh::DisplayMesh;
use forward_renderer::renderer::util::Format;

fn bits(x: f32) -> u32 {
    x.to_bits()
}

fn camera(seed: u32) -> ViewProjectionData {
    ViewProjectionData {
        camera_position: [seed, seed + 1, seed + 2],
        view: [[seed; 4]; 4],
        projection: [[seed + 7; 4]; 4],
    }
}

fn model(seed: u32) -> ModelData {
    ModelData { model: [[seed; 4]; 4] }
}

fn mesh_of(index_count: usize) -> DisplayMesh {
    DisplayMesh::new(vec![Vertex::default(); 3], vec![0; index_count])
}

fn clear() -> [ClearValue; 3] {
    [
        ClearValue::Color([bits(0.0), bits(0.0), bits(0.0), bits(1.0)]),
        ClearValue::Color([bits(0.0), bits(0.0), bits(0.0), bits(1.0)]),
        ClearValue::Depth(bits(1.0)),
    ]
}

fn draw(index_count: u32) -> Command {
    Command::DrawIndexed {
        index_count,
        instance_count: 1,
        first_index: 0,
        vertex_offset: 0,
        first_instance: 0,
    }
}

fn draws_in(commands: &[Command]) -> Vec<u32> {
    let mut counts = Vec::new();
    for c in commands {
        if let Command::DrawIndexed { index_count, .. } = c {
            counts.push(*index_count);
        }
    }
    counts
}

#[test]
fn float_constants_are_the_bit_patterns() {
    assert_eq!(F32_ZERO, 0.0f32.to_bits());
    assert_eq!(F32_ONE, 1.0f32.to_bits());
}

#[test]
fn one_camera_draws_every_compiled_mesh_in_order() {
    let (a, b, c) = (mesh_of(3), mesh_of(36), mesh_of(6));
    let world = World {
        cameras: vec![camera(1)],
        drawables: vec![
            Drawable { model: model(10), mesh: Some(&a), material: None },
            Drawable { model: model(11), mesh: None, material: None },
            Drawable { model: model(12), mesh: Some(&b), material: None },
            Drawable { model: model(13), mesh: Some(&c), material: None },
        ],
    };
    let commands = record_frame(&world, 2);
    assert_eq!(draws_in(&commands), vec![3, 36, 6]);
    let default_material = MaterialData { k_diffuse: [bits(1.0), bits(0.0), bits(1.0), bits(1.0)] };
    let bind = |m: u32| Command::BindMaterialAndModel {
        first_set: 1,
        material: default_material,
        texture: TextureBinding::Fallback,
        model: model(m),
    };
    assert_eq!(
        commands,
        vec![
            Command::BeginRenderPass { framebuffer: 2, clear_values: clear() },
            Command::BindPipelineGraphics,
            Command::BindViewProjection { set: 0, data: camera(1) },
            bind(10),
            Command::BindVertexBuffers { first_binding: 0, drawable: 0 },
            Command::BindIndexBuffer { drawable: 0 },
            draw(3),
            bind(12),
            Command::BindVertexBuffers { first_binding: 0, drawable: 2 },
            Command::BindIndexBuffer { drawable: 2 },
            draw(36),
            bind(13),
            Command::BindVertexBuffers { first_binding: 0, drawable: 3 },
            Command::BindIndexBuffer { drawable: 3 },
            draw(6),
            Command::EndRenderPass,
        ]
    );
}

#[test]
fn no_camera_clears_and_draws_nothing() {
    let a = mesh_of(3);
    let world = World {
        cameras: Vec::new(),
        drawables: vec![Drawable { model: model(1), mesh: Some(&a), material: None }],
    };
    let commands = record_frame(&world, 0);
    assert_eq!(
        commands,
        vec![Command::BeginRenderPass { framebuffer: 0, clear_values: clear() }, Command::EndRenderPass]
    );
    assert!(draws_in(&commands).is_empty());
}

#[test]
fn two_cameras_clear_and_draw_nothing() {
    let a = mesh_of(3);
    let world = World {
        cameras: vec![camera(1), camera(2)],
        drawables: vec![Drawable { model: model(1), mesh: Some(&a), material: None }],
    };
    let commands = record_frame(&world, 1);
    assert_eq!(
        commands,
        vec![Command::BeginRenderPass { framebuffer: 1, clear_values: clear() }, Command::EndRenderPass]
    );
}

#[test]
fn empty_scene_with_camera_records_an_empty_pass() {
    let world = World { cameras: vec![camera(5)], drawables: Vec::new() };
    assert_eq!(
        record_frame(&world, 0),
        vec![
            Command::BeginRenderPass { framebuffer: 0, clear_values: clear() },
            Command::BindPipelineGraphics,
            Command::BindViewProjection { set: 0, data: camera(5) },
            Command::EndRenderPass,
        ]
    );
}

#[test]
fn draw_count_is_the_length_of_the_index_array() {
    let indices: Vec<u32> = (0..36).collect();
    let mesh = DisplayMesh::new(vec![Vertex::default(); 24], indices.clone());
    let world = World {
        cameras: vec![camera(1)],
        drawables: vec![Drawable { model: model(1), mesh: Some(&mesh), material: None }],
    };
    let commands = record_frame(&world, 0);
    assert_eq!(commands.len(), 8);
    assert_eq!(commands[5], Command::BindIndexBuffer { drawable: 0 });
    assert_eq!(commands[6], draw(indices.len() as u32));
}

#[test]
fn absent_material_is_magenta_on_the_fallback_texture() {
    let (data, texture) = resolve_material(None);
    assert_eq!(data.k_diffuse, [bits(1.0), bits(0.0), bits(1.0), bits(1.0)]);
    assert_eq!(texture, TextureBinding::Fallback);
}

#[test]
fn material_without_map_binds_the_fallback_texture() {
    let m = DisplayMaterial { k_diffuse: [1, 2, 3, 4], k_diffuse_map: None };
    let (data, texture) = resolve_material(Some(&m));
    assert_eq!(data.k_diffuse, [1, 2, 3, 4]);
    assert_eq!(texture, TextureBinding::Fallback);
}

#[test]
fn texture_not_yet_on_the_device_binds_the_fallback() {
    let pending = TextureImage::from_bytes(&[1, 2, 3, 4], Format::R8G8B8A8Unorm, [1, 1]);
    let m = DisplayMaterial { k_diffuse: [1, 2, 3, 4], k_diffuse_map: Some(pending) };
    let (data, texture) = resolve_material(Some(&m));
    assert_eq!(data.k_diffuse, [1, 2, 3, 4]);
    assert_eq!(texture, TextureBinding::Fallback);
    let mesh = mesh_of(3);
    let world = World {
        cameras: vec![camera(1)],
        drawables: vec![Drawable { model: model(4), mesh: Some(&mesh), material: Some(&m) }],
    };
    let commands = record_frame(&world, 0);
    assert_eq!(
        commands[3],
        Command::BindMaterialAndModel {
            first_set: 1,
            material: MaterialData { k_diffuse: [1, 2, 3, 4] },
            texture: TextureBinding::Fallback,
            model: model(4),
        }
    );
}

#[test]
fn uploaded_texture_binds_its_own_image() {
    let mut uploaded = TextureImage::from_bytes(&[1, 2, 3, 4], Format::R8G8B8A8Unorm, [1, 1]);
    uploaded.upload_to_gpu(ImageHandle(42));
    let m = DisplayMaterial { k_diffuse: [9, 9, 9, 9], k_diffuse_map: Some(uploaded) };
    let (_, texture) = resolve_material(Some(&m));
    assert_eq!(texture, TextureBinding::Image(ImageHandle(42)));
}
