//! What one frame draws: the scene as the renderer reads it, and the
//! commands recorded for it.
//!
//! Floating-point values are carried as `f32` bit patterns.

use crate::renderer::material::{DisplayMaterial, ImageHandle};
use crate::renderer::mesh::{drawable, DisplayMesh};
use vstd::prelude::*;

verus! {

/// The bit pattern of `0.0f32`.
pub const F32_ZERO: u32 = 0;

/// The bit pattern of `1.0f32`.
pub const F32_ONE: u32 = 0x3f80_0000;

/// The uniform block of binding set 0: camera position, view matrix and
/// projection matrix, the matrices column by column.
#[derive(Clone, Copy, Debug, PartialEq, Eq)]
pub struct ViewProjectionData {
    pub camera_position: [u32; 3],
    pub view: [[u32; 4]; 4],
    pub projection: [[u32; 4]; 4],
}

/// The per-draw uniform block of the fragment stage.
#[derive(Clone, Copy, Debug, PartialEq, Eq)]
pub struct MaterialData {
    pub k_diffuse: [u32; 4],
}

/// The per-draw uniform block of the vertex stage: the model matrix, column
/// by column.
#[derive(Clone, Copy, Debug, PartialEq, Eq)]
pub struct ModelData {
    pub model: [[u32; 4]; 4],
}

/// One entity that the scene offers for drawing.
pub struct Drawable<'a> {
    pub model: ModelData,
    /// The compiled mesh; `None` while the geometry has not been uploaded.
    pub mesh: Option<&'a DisplayMesh>,
    pub material: Option<&'a DisplayMaterial>,
}

/// The scene of one frame: every camera entity, and the drawable entities in
/// the scene's iteration order.
pub struct World<'a> {
    pub cameras: Vec<ViewProjectionData>,
    pub drawables: Vec<Drawable<'a>>,
}

/// The image that a draw samples.
#[derive(Clone, Copy, Debug, PartialEq, Eq, Structural)]
pub enum TextureBinding {
    /// The context's own 1x1 white texture.
    Fallback,
    /// The device image of the material's texture.
    Image(ImageHandle),
}

/// The value an attachment is cleared to.
#[derive(Clone, Copy, Debug, PartialEq, Eq)]
pub enum ClearValue {
    Color([u32; 4]),
    Depth(u32),
}

/// One recorded command.
#[derive(Clone, Copy, Debug, PartialEq, Eq)]
pub enum Command {
    BeginRenderPass { framebuffer: usize, clear_values: [ClearValue; 3] },
    BindPipelineGraphics,
    /// Writes the block into the view-projection pool and binds it.
    BindViewProjection { set: u32, data: ViewProjectionData },
    /// Writes one block into the material pool and one into the model pool
    /// and binds them, the material with its texture, at `first_set` and the
    /// set after it.
    BindMaterialAndModel {
        first_set: u32,
        material: MaterialData,
        texture: TextureBinding,
        model: ModelData,
    },
    /// Binds the vertex buffer of the drawable at this place in the scene.
    BindVertexBuffers { first_binding: u32, drawable: usize },
    /// Binds the index buffer of the drawable at this place in the scene.
    BindIndexBuffer { drawable: usize },
    DrawIndexed {
        index_count: u32,
        instance_count: u32,
        first_index: u32,
        vertex_offset: i32,
        first_instance: u32,
    },
    EndRenderPass,
}

/// The colour of an entity that has no material: opaque magenta.
pub open spec fn default_material() -> MaterialData {
    MaterialData { k_diffuse: [F32_ONE, F32_ZERO, F32_ONE, F32_ONE] }
}

/// The clear values in attachment order: opaque black for both colour
/// attachments, the far plane for depth.
pub open spec fn clear_values() -> [ClearValue; 3] {
    [
        ClearValue::Color([F32_ZERO, F32_ZERO, F32_ZERO, F32_ONE]),
        ClearValue::Color([F32_ZERO, F32_ZERO, F32_ZERO, F32_ONE]),
        ClearValue::Depth(F32_ONE),
    ]
}

/// The uniform data of a draw: the material's colour, or the default.
pub open spec fn material_data_of(material: Option<&DisplayMaterial>) -> MaterialData {
    match material {
        Some(m) => MaterialData { k_diffuse: m.k_diffuse },
        None => default_material(),
    }
}

/// The texture of a draw: the device image of the material's texture where
/// there is a material, it has a texture and the texture has been uploaded;
/// the fallback in every other case.
pub open spec fn texture_of(material: Option<&DisplayMaterial>) -> TextureBinding {
    match material {
        Some(m) => match m.k_diffuse_map {
            Some(t) => match t@.image {
                Some(h) => TextureBinding::Image(h),
                None => TextureBinding::Fallback,
            },
            None => TextureBinding::Fallback,
        },
        None => TextureBinding::Fallback,
    }
}

/// The commands of the drawable at place `i`: none while it has no compiled
/// mesh; else its bindings and one indexed draw of all its indices.
pub open spec fn draw_commands(d: Drawable, i: int) -> Seq<Command> {
    match d.mesh {
        None => Seq::empty(),
        Some(mesh) => seq![
            Command::BindMaterialAndModel {
                first_set: 1,
                material: material_data_of(d.material),
                texture: texture_of(d.material),
                model: d.model,
            },
            Command::BindVertexBuffers { first_binding: 0, drawable: i as usize },
            Command::BindIndexBuffer { drawable: i as usize },
            Command::DrawIndexed {
                index_count: mesh@.indices.len() as u32,
                instance_count: 1,
                first_index: 0,
                vertex_offset: 0,
                first_instance: 0,
            },
        ],
    }
}

/// The commands of the first `n` drawables, in their order.
pub open spec fn draws_up_to(drawables: Seq<Drawable>, n: int) -> Seq<Command>
    decreases n,
{
    if n <= 0 {
        Seq::empty()
    } else {
        draws_up_to(drawables, n - 1) + draw_commands(drawables[n - 1], n - 1)
    }
}

/// The commands that start a frame seen through `camera`.
pub open spec fn prologue(framebuffer: usize, camera: ViewProjectionData) -> Seq<Command> {
    seq![
        Command::BeginRenderPass { framebuffer: framebuffer, clear_values: clear_values() },
        Command::BindPipelineGraphics,
        Command::BindViewProjection { set: 0, data: camera },
    ]
}

/// The commands of a frame into framebuffer `framebuffer`. With exactly one
/// camera: the prologue, every drawable's commands in scene order, the end
/// of the pass. With none or several: a pass that only clears.
pub open spec fn frame_commands(world: World, framebuffer: usize) -> Seq<Command> {
    if world.cameras@.len() == 1 {
        prologue(framebuffer, world.cameras@[0]) + draws_up_to(
            world.drawables@,
            world.drawables@.len() as int,
        ) + seq![Command::EndRenderPass]
    } else {
        seq![
            Command::BeginRenderPass { framebuffer: framebuffer, clear_values: clear_values() },
            Command::EndRenderPass,
        ]
    }
}

/// The uniform data and the texture that a draw with this material binds.
pub fn resolve_material(material: Option<&DisplayMaterial>) -> (r: (MaterialData, TextureBinding))
    ensures
        r.0 == material_data_of(material),
        r.1 == texture_of(material),
{
    match material {
        Some(m) => {
            let texture = match &m.k_diffuse_map {
                Some(t) => match t.image() {
                    Some(h) => TextureBinding::Image(h),
                    None => TextureBinding::Fallback,
                },
                None => TextureBinding::Fallback,
            };
            (MaterialData { k_diffuse: m.k_diffuse }, texture)
        },
        None => (
            MaterialData { k_diffuse: [F32_ONE, F32_ZERO, F32_ONE, F32_ONE] },
            TextureBinding::Fallback,
        ),
    }
}

/// Records the commands of one frame that is drawn into the framebuffer of
/// the acquired image.
pub fn record_frame(world: &World, framebuffer: usize) -> (r: Vec<Command>)
    ensures
        r@ == frame_commands(*world, framebuffer),
{
    let clear = [
        ClearValue::Color([F32_ZERO, F32_ZERO, F32_ZERO, F32_ONE]),
        ClearValue::Color([F32_ZERO, F32_ZERO, F32_ZERO, F32_ONE]),
        ClearValue::Depth(F32_ONE),
    ];
    let mut commands: Vec<Command> = Vec::new();
    commands.push(Command::BeginRenderPass { framebuffer: framebuffer, clear_values: clear });
    if world.cameras.len() != 1 {
        commands.push(Command::EndRenderPass);
        assert(commands@ =~= frame_commands(*world, framebuffer));
        return commands;
    }
    commands.push(Command::BindPipelineGraphics);
    commands.push(Command::BindViewProjection { set: 0, data: world.cameras[0] });
    assert(commands@ =~= prologue(framebuffer, world.cameras@[0]));
    let mut i: usize = 0;
    while i < world.drawables.len()
        invariant
            i <= world.drawables@.len(),
            world.cameras@.len() == 1,
            commands@ == prologue(framebuffer, world.cameras@[0]) + draws_up_to(
                world.drawables@,
                i as int,
            ),
        decreases world.drawables@.len() - i,
    {
        let d = &world.drawables[i];
        let ghost before = commands@;
        match d.mesh {
            Some(mesh) => {
                let (material, texture) = resolve_material(d.material);
                commands.push(
                    Command::BindMaterialAndModel {
                        first_set: 1,
                        material: material,
                        texture: texture,
                        model: d.model,
                    },
                );
                commands.push(Command::BindVertexBuffers { first_binding: 0, drawable: i });
                commands.push(Command::BindIndexBuffer { drawable: i });
                commands.push(
                    Command::DrawIndexed {
                        index_count: mesh.index_count(),
                        instance_count: 1,
                        first_index: 0,
                        vertex_offset: 0,
                        first_instance: 0,
                    },
                );
            },
            None => {},
        }
        assert(commands@ =~= before + draw_commands(world.drawables@[i as int], i as int));
        i += 1;
    }
    commands.push(Command::EndRenderPass);
    assert(commands@ =~= frame_commands(*world, framebuffer));
    commands
}

/// The index counts of the indexed draws among `commands`, in their order.
pub open spec fn drawn_index_counts(commands: Seq<Command>) -> Seq<u32>
    decreases commands.len(),
{
    if commands.len() == 0 {
        Seq::empty()
    } else {
        drawn_index_counts(commands.drop_last()) + match commands.last() {
            Command::DrawIndexed { index_count, .. } => seq![index_count],
            _ => Seq::empty(),
        }
    }
}

/// The index counts of the compiled meshes among the first `n` drawables, in
/// scene order.
pub open spec fn compiled_index_counts(drawables: Seq<Drawable>, n: int) -> Seq<u32>
    decreases n,
{
    if n <= 0 {
        Seq::empty()
    } else {
        compiled_index_counts(drawables, n - 1) + match drawables[n - 1].mesh {
            Some(mesh) => seq![mesh@.indices.len() as u32],
            None => Seq::empty(),
        }
    }
}

/// The draws of two command sequences in a row are the draws of the first
/// followed by those of the second.
pub proof fn drawn_index_counts_of_concat(a: Seq<Command>, b: Seq<Command>)
    ensures
        drawn_index_counts(a + b) == drawn_index_counts(a) + drawn_index_counts(b),
    decreases b.len(),
{
    if b.len() == 0 {
        assert(a + b =~= a);
    } else {
        drawn_index_counts_of_concat(a, b.drop_last());
        assert((a + b).drop_last() =~= a + b.drop_last());
        assert((a + b).last() == b.last());
    }
}

/// The commands of one drawable hold one draw of all its mesh's indices, or
/// none while it has no compiled mesh.
pub proof fn draws_of_one_drawable(d: Drawable, i: int)
    ensures
        drawn_index_counts(draw_commands(d, i)) == match d.mesh {
            Some(mesh) => seq![mesh@.indices.len() as u32],
            None => Seq::<u32>::empty(),
        },
{
    reveal_with_fuel(drawn_index_counts, 6);
    let all = draw_commands(d, i);
    match d.mesh {
        Some(mesh) => {
            assert(all.len() == 4);
            let three = all.drop_last();
            let two = three.drop_last();
            let one = two.drop_last();
            assert(one.drop_last().len() == 0);
            assert(drawn_index_counts(one.drop_last()) =~= Seq::<u32>::empty());
            assert(drawn_index_counts(one) =~= Seq::<u32>::empty());
            assert(drawn_index_counts(two) =~= Seq::<u32>::empty());
            assert(drawn_index_counts(three) =~= Seq::<u32>::empty());
            assert(drawn_index_counts(all) =~= seq![mesh@.indices.len() as u32]);
        },
        None => {},
    }
}

/// The commands of the first `n` drawables draw exactly the compiled meshes
/// among them, in scene order.
pub proof fn draws_follow_scene_order(drawables: Seq<Drawable>, n: int)
    requires
        0 <= n <= drawables.len(),
    ensures
        drawn_index_counts(draws_up_to(drawables, n)) == compiled_index_counts(drawables, n),
    decreases n,
{
    if n > 0 {
        draws_follow_scene_order(drawables, n - 1);
        drawn_index_counts_of_concat(
            draws_up_to(drawables, n - 1),
            draw_commands(drawables[n - 1], n - 1),
        );
        draws_of_one_drawable(drawables[n - 1], n - 1);
    }
}

/// With exactly one camera, a frame issues one indexed draw per drawable
/// that has a compiled mesh, in the scene's order, each over all the indices
/// of its mesh. With no camera or several, it issues no draw.
pub proof fn one_draw_per_compiled_mesh(world: World, framebuffer: usize)
    ensures
        world.cameras@.len() == 1 ==> drawn_index_counts(frame_commands(world, framebuffer))
            == compiled_index_counts(world.drawables@, world.drawables@.len() as int),
        world.cameras@.len() != 1 ==> drawn_index_counts(frame_commands(world, framebuffer))
            == Seq::<u32>::empty(),
{
    reveal_with_fuel(drawn_index_counts, 5);
    if world.cameras@.len() == 1 {
        let start = prologue(framebuffer, world.cameras@[0]);
        let draws = draws_up_to(world.drawables@, world.drawables@.len() as int);
        let end = seq![Command::EndRenderPass];
        draws_follow_scene_order(world.drawables@, world.drawables@.len() as int);
        drawn_index_counts_of_concat(start + draws, end);
        drawn_index_counts_of_concat(start, draws);
        assert(start.len() == 3);
        let start_two = start.drop_last();
        let start_one = start_two.drop_last();
        assert(start_one.drop_last().len() == 0);
        assert(drawn_index_counts(start_one) =~= Seq::<u32>::empty());
        assert(drawn_index_counts(start_two) =~= Seq::<u32>::empty());
        assert(drawn_index_counts(start) =~= Seq::<u32>::empty());
        assert(end.drop_last().len() == 0);
        assert(drawn_index_counts(end) =~= Seq::<u32>::empty());
        assert(drawn_index_counts(start + draws + end) =~= drawn_index_counts(draws));
    } else {
        let cleared = frame_commands(world, framebuffer);
        assert(cleared.len() == 2);
        let begin_only = cleared.drop_last();
        assert(begin_only.drop_last().len() == 0);
        assert(drawn_index_counts(begin_only) =~= Seq::<u32>::empty());
        assert(drawn_index_counts(cleared) =~= Seq::<u32>::empty());
    }
}

/// A mesh is drawn whole: the commands of a drawable with a compiled mesh
/// bind that drawable's vertex and index buffers and end in one draw of one
/// instance whose index count is the length of the mesh's index sequence.
pub proof fn draw_covers_all_indices(d: Drawable, i: int)
    requires
        d.mesh.is_some(),
        drawable(d.mesh.unwrap()@),
        0 <= i <= usize::MAX,
    ensures
        draw_commands(d, i).len() == 4,
        draw_commands(d, i)[1] == (Command::BindVertexBuffers { first_binding: 0, drawable: i as usize }),
        draw_commands(d, i)[2] == (Command::BindIndexBuffer { drawable: i as usize }),
        draw_commands(d, i)[3] is DrawIndexed,
        draw_commands(d, i)[3]->index_count == d.mesh.unwrap()@.indices.len(),
        draw_commands(d, i)[3]->instance_count == 1,
        draw_commands(d, i)[3]->first_index == 0,
        draw_commands(d, i)[3]->vertex_offset == 0,
        draw_commands(d, i)[3]->first_instance == 0,
{
}

/// Every frame is a complete render pass into the framebuffer of the
/// acquired image: it begins with the pass's begin, which clears, and ends
/// with the pass's end, whatever the scene holds.
pub proof fn frame_is_one_render_pass(world: World, framebuffer: usize)
    ensures
        frame_commands(world, framebuffer).len() >= 2,
        frame_commands(world, framebuffer).first() == (Command::BeginRenderPass {
            framebuffer: framebuffer,
            clear_values: clear_values(),
        }),
        frame_commands(world, framebuffer).last() == Command::EndRenderPass,
{
}

/// An entity without a material is drawn all the same: in the default
/// colour, which is opaque magenta, and with the fallback texture.
pub proof fn absent_material_uses_the_defaults()
    ensures
        material_data_of(None) == default_material(),
        default_material().k_diffuse == [F32_ONE, F32_ZERO, F32_ONE, F32_ONE],
        texture_of(None) == TextureBinding::Fallback,
{
}

/// A draw never lacks a texture: a material whose texture has no device
/// image yet, a material without a texture and an absent material all bind
/// the fallback; only an uploaded texture binds its own image.
pub proof fn pending_texture_binds_fallback(material: Option<&DisplayMaterial>)
    ensures
        material.is_none() ==> texture_of(material) == TextureBinding::Fallback,
        material.is_some() && material.unwrap().k_diffuse_map.is_none() ==> texture_of(material)
            == TextureBinding::Fallback,
        material.is_some() && material.unwrap().k_diffuse_map.is_some()
            && material.unwrap().k_diffuse_map.unwrap()@.image.is_none() ==> texture_of(material)
            == TextureBinding::Fallback,
        material.is_some() && material.unwrap().k_diffuse_map.is_some()
            && material.unwrap().k_diffuse_map.unwrap()@.image.is_some() ==> texture_of(material)
            == TextureBinding::Image(material.unwrap().k_diffuse_map.unwrap()@.image.unwrap()),
{
}

} // verus!
