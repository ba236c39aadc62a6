//! The renderer as an application sees it: compiling the scene's meshes,
//! applying window settings, and what each event of the window's loop leads
//! to.

use crate::data::Vertex;
use crate::plugins::CoreStage;
use crate::renderer::mesh::{drawable, DisplayMesh, DisplayMeshView};
use crate::renderer::{invalidated, VulkanContext};
use vstd::prelude::*;

verus! {

/// The renderer's systems, assets and event loop.
#[derive(Clone, Copy, Debug)]
pub struct RendererPlugin;

/// A request to change how the window behaves.
#[derive(Clone, Copy, Debug, PartialEq, Eq, Structural)]
pub enum WindowSetting {
    SetFullscreen(bool),
    SetMouseGrab(bool),
}

/// A kind of asset that the renderer keeps.
#[derive(Clone, Copy, Debug, PartialEq, Eq, Structural)]
pub enum AssetKind {
    Mesh,
    TextureImage,
    DisplayMaterial,
}

/// A system of the renderer plugin.
#[derive(Clone, Copy, Debug, PartialEq, Eq, Structural)]
pub enum RendererSystem {
    UpdateMeshes,
    UpdateWindow,
}

/// What the renderer plugin adds to an application.
#[derive(Clone, Copy, Debug, PartialEq, Eq, Structural)]
pub enum RendererPart {
    Asset(AssetKind),
    /// The event type `WindowSetting`.
    WindowSettingEvent,
    /// The event loop that drives the window and the frames.
    Runner,
    System(CoreStage, RendererSystem),
}

/// The parts of the renderer plugin in the order in which they are added.
pub open spec fn renderer_parts() -> Seq<RendererPart> {
    seq![
        RendererPart::Asset(AssetKind::Mesh),
        RendererPart::Asset(AssetKind::TextureImage),
        RendererPart::Asset(AssetKind::DisplayMaterial),
        RendererPart::WindowSettingEvent,
        RendererPart::Runner,
        RendererPart::System(CoreStage::PreUpdate, RendererSystem::UpdateMeshes),
        RendererPart::System(CoreStage::PostUpdate, RendererSystem::UpdateWindow),
    ]
}

impl RendererPlugin {
    /// The parts in the order in which they are added: the three asset
    /// kinds, the window-setting event, the event loop, mesh compilation
    /// before the update and window settings after it.
    pub fn build(&self) -> (r: Vec<RendererPart>)
        ensures
            r@ == renderer_parts(),
    {
        let mut r: Vec<RendererPart> = Vec::new();
        r.push(RendererPart::Asset(AssetKind::Mesh));
        r.push(RendererPart::Asset(AssetKind::TextureImage));
        r.push(RendererPart::Asset(AssetKind::DisplayMaterial));
        r.push(RendererPart::WindowSettingEvent);
        r.push(RendererPart::Runner);
        r.push(RendererPart::System(CoreStage::PreUpdate, RendererSystem::UpdateMeshes));
        r.push(RendererPart::System(CoreStage::PostUpdate, RendererSystem::UpdateWindow));
        assert(r@ =~= renderer_parts());
        r
    }

    /// The plugin's name.
    pub fn name(&self) -> (r: &'static str)
        ensures
            r@ == "alnyan-renderer"@,
    {
        "alnyan-renderer"
    }
}

/// The attributes of a scene mesh: positions and normals per vertex,
/// texture coordinates per vertex where the mesh has them, and the triangle
/// indices.
#[derive(Debug)]
pub struct MeshSource {
    pub positions: Vec<[u32; 3]>,
    pub tex_coords: Option<Vec<[u32; 2]>>,
    pub normals: Vec<[u32; 3]>,
    pub indices: Vec<u32>,
}

/// The texture coordinates of a vertex of a mesh that has none: the origin
/// of the texture.
pub const DEFAULT_TEX_COORDS: [u32; 2] = [0, 0];

/// A source can be compiled: there is a normal for every position, and the
/// indices can be counted by an indexed draw.
pub open spec fn compilable(s: MeshSource) -> bool {
    &&& s.positions@.len() == s.normals@.len()
    &&& s.indices@.len() <= u32::MAX
}

/// The number of vertices of the compiled mesh: one for every position of a
/// mesh without texture coordinates; else as many as have all three
/// attributes.
pub open spec fn vertex_count(s: MeshSource) -> int {
    match s.tex_coords {
        None => s.positions@.len() as int,
        Some(t) => if t@.len() < s.positions@.len() {
            t@.len() as int
        } else {
            s.positions@.len() as int
        },
    }
}

/// The texture coordinates of vertex `i`: the mesh's own, or the default
/// pair where the mesh has none.
pub open spec fn tex_coords_at(s: MeshSource, i: int) -> [u32; 2] {
    match s.tex_coords {
        None => DEFAULT_TEX_COORDS,
        Some(t) => t@[i],
    }
}

/// The vertices of the compiled mesh: the attributes of each place put
/// together.
pub open spec fn compiled_vertices(s: MeshSource) -> Seq<Vertex> {
    Seq::new(
        vertex_count(s) as nat,
        |i: int|
            Vertex {
                position: s.positions@[i],
                tex_coords: tex_coords_at(s, i),
                normal: s.normals@[i],
            },
    )
}

/// The compiled mesh of a source.
pub open spec fn compiled(s: MeshSource) -> DisplayMeshView {
    DisplayMeshView { vertices: compiled_vertices(s), indices: s.indices@ }
}

/// A mesh without texture coordinates is compiled whole: it has one vertex
/// for every position, each with its position, its normal and the default
/// texture coordinates.
pub proof fn mesh_without_tex_coords_is_whole(s: MeshSource)
    requires
        compilable(s),
        s.tex_coords.is_none(),
    ensures
        compiled(s).vertices.len() == s.positions@.len(),
        forall|i: int|
            0 <= i < s.positions@.len() ==> #[trigger] compiled(s).vertices[i] == (Vertex {
                position: s.positions@[i],
                tex_coords: DEFAULT_TEX_COORDS,
                normal: s.normals@[i],
            }),
        compiled(s).indices == s.indices@,
{
}

/// Compiles a scene mesh: its vertices are the source's attributes put
/// together place by place, with the default texture coordinates where the
/// source has none; its indices are the source's.
pub fn compile_mesh(source: &MeshSource) -> (r: DisplayMesh)
    requires
        compilable(*source),
    ensures
        r@ == compiled(*source),
        drawable(r@),
{
    let n = match &source.tex_coords {
        None => source.positions.len(),
        Some(t) => if t.len() < source.positions.len() {
            t.len()
        } else {
            source.positions.len()
        },
    };
    let mut vertices: Vec<Vertex> = Vec::new();
    let mut i: usize = 0;
    while i < n
        invariant
            i <= n,
            n == vertex_count(*source),
            n <= source.positions@.len(),
            source.tex_coords.is_some() ==> n <= source.tex_coords.unwrap()@.len(),
            source.positions@.len() == source.normals@.len(),
            vertices@.len() == i,
            forall|k: int| 0 <= k < i ==> #[trigger] vertices@[k] == compiled_vertices(*source)[k],
        decreases n - i,
    {
        let tex_coords = match &source.tex_coords {
            None => DEFAULT_TEX_COORDS,
            Some(t) => t[i],
        };
        vertices.push(
            Vertex { position: source.positions[i], tex_coords: tex_coords, normal: source.normals[i] },
        );
        i += 1;
    }
    assert(vertices@ =~= compiled_vertices(*source));
    let mut indices: Vec<u32> = Vec::new();
    let mut j: usize = 0;
    while j < source.indices.len()
        invariant
            j <= source.indices@.len(),
            indices@ == source.indices@.subrange(0, j as int),
        decreases source.indices@.len() - j,
    {
        indices.push(source.indices[j]);
        assert(indices@ =~= source.indices@.subrange(0, j + 1));
        j += 1;
    }
    assert(indices@ =~= source.indices@);
    DisplayMesh::new(vertices, indices)
}

/// Compiles the meshes of the entities whose geometry is new or has
/// changed. An entity whose mesh is loaded gets its compiled mesh; one whose
/// mesh is not loaded yet gets none and stays undrawn for now.
pub fn update_meshes(sources: &Vec<Option<MeshSource>>) -> (r: Vec<Option<DisplayMesh>>)
    requires
        forall|i: int|
            0 <= i < sources@.len() && (#[trigger] sources@[i]).is_some() ==> compilable(
                sources@[i].unwrap(),
            ),
    ensures
        r@.len() == sources@.len(),
        forall|i: int|
            0 <= i < sources@.len() ==> ((#[trigger] r@[i]).is_some() <==> sources@[i].is_some()),
        forall|i: int|
            0 <= i < sources@.len() && sources@[i].is_some() ==> (#[trigger] r@[i]).unwrap()@
                == compiled(sources@[i].unwrap()),
{
    let mut meshes: Vec<Option<DisplayMesh>> = Vec::new();
    let mut i: usize = 0;
    while i < sources.len()
        invariant
            i <= sources@.len(),
            meshes@.len() == i,
            forall|k: int|
                0 <= k < sources@.len() && (#[trigger] sources@[k]).is_some() ==> compilable(
                    sources@[k].unwrap(),
                ),
            forall|k: int| 0 <= k < i ==> ((#[trigger] meshes@[k]).is_some() <==> sources@[k].is_some()),
            forall|k: int|
                0 <= k < i && sources@[k].is_some() ==> (#[trigger] meshes@[k]).unwrap()@
                    == compiled(sources@[k].unwrap()),
        decreases sources@.len() - i,
    {
        match &sources[i] {
            Some(source) => {
                let mesh = compile_mesh(source);
                meshes.push(Some(mesh));
            },
            None => {
                meshes.push(None);
            },
        }
        i += 1;
    }
    meshes
}

/// How the cursor is to behave.
#[derive(Clone, Copy, Debug, PartialEq, Eq, Structural)]
pub struct CursorMode {
    pub visible: bool,
    pub grab: bool,
}

/// The cursor modes that the first `n` settings ask for, in order: a grabbed
/// cursor is hidden, a released one is shown; other settings ask for none.
pub open spec fn cursor_modes(settings: Seq<WindowSetting>, n: int) -> Seq<CursorMode>
    decreases n,
{
    if n <= 0 {
        Seq::empty()
    } else {
        match settings[n - 1] {
            WindowSetting::SetMouseGrab(grab) => cursor_modes(settings, n - 1).push(
                CursorMode { visible: !grab, grab: grab },
            ),
            WindowSetting::SetFullscreen(_) => cursor_modes(settings, n - 1),
        }
    }
}

/// Turns the window settings that were requested into the cursor modes to
/// apply, in the order of the requests.
pub fn update_window(settings: &Vec<WindowSetting>) -> (r: Vec<CursorMode>)
    ensures
        r@ == cursor_modes(settings@, settings@.len() as int),
{
    let mut modes: Vec<CursorMode> = Vec::new();
    let mut i: usize = 0;
    while i < settings.len()
        invariant
            i <= settings@.len(),
            modes@ == cursor_modes(settings@, i as int),
        decreases settings@.len() - i,
    {
        match settings[i] {
            WindowSetting::SetMouseGrab(grab) => {
                modes.push(CursorMode { visible: !grab, grab: grab });
            },
            WindowSetting::SetFullscreen(_) => {},
        }
        i += 1;
    }
    modes
}

/// An event of the window's loop, as far as the renderer tells them apart.
#[derive(Clone, Copy, Debug, PartialEq, Eq)]
pub enum LoopEvent {
    CloseRequested,
    KeyboardInput,
    /// The window has this size now.
    Resized([u32; 2]),
    /// Any other event of the window.
    OtherWindowEvent,
    MouseMotion,
    MainEventsCleared,
    RedrawRequested,
    RedrawEventsCleared,
    /// Any other event.
    Other,
}

/// How the loop goes on.
#[derive(Clone, Copy, Debug, PartialEq, Eq, Structural)]
pub enum ControlFlow {
    Poll,
    Exit,
}

/// What the loop does for an event.
#[derive(Clone, Copy, Debug, PartialEq, Eq)]
pub enum LoopAction {
    Nothing,
    /// Hand the key on to the application.
    SendKeyboardInput,
    /// Tell the application that the window has this size.
    SendWindowResized([u32; 2]),
    /// Hand the mouse motion on to the application.
    SendMouseMotion,
    /// Run one update of the application.
    UpdateApp,
    /// Draw a frame.
    DoFrame,
    /// Ask the window for a redraw.
    RequestRedraw,
}

/// The answer to an event: the new control flow, if it changes, and what to
/// do.
#[derive(Clone, Copy, Debug, PartialEq, Eq)]
pub struct LoopStep {
    pub flow: Option<ControlFlow>,
    pub action: LoopAction,
}

/// The answer to each event.
pub open spec fn loop_step(event: LoopEvent) -> LoopStep {
    match event {
        LoopEvent::CloseRequested => LoopStep {
            flow: Some(ControlFlow::Exit),
            action: LoopAction::Nothing,
        },
        LoopEvent::KeyboardInput => LoopStep { flow: None, action: LoopAction::SendKeyboardInput },
        LoopEvent::Resized(size) => LoopStep {
            flow: None,
            action: LoopAction::SendWindowResized(size),
        },
        LoopEvent::OtherWindowEvent => LoopStep {
            flow: Some(ControlFlow::Poll),
            action: LoopAction::Nothing,
        },
        LoopEvent::MouseMotion => LoopStep { flow: None, action: LoopAction::SendMouseMotion },
        LoopEvent::MainEventsCleared => LoopStep { flow: None, action: LoopAction::UpdateApp },
        LoopEvent::RedrawRequested => LoopStep { flow: None, action: LoopAction::DoFrame },
        LoopEvent::RedrawEventsCleared => LoopStep { flow: None, action: LoopAction::RequestRedraw },
        LoopEvent::Other => LoopStep { flow: Some(ControlFlow::Poll), action: LoopAction::Nothing },
    }
}

/// Takes one event of the window's loop. A resize invalidates the
/// renderer's surface; no other event touches the renderer. The answer says
/// how the loop goes on and what the caller is to do.
pub fn renderer_runner(renderer: &mut VulkanContext, event: LoopEvent) -> (r: LoopStep)
    ensures
        r == loop_step(event),
        final(renderer)@ == if event is Resized {
            invalidated(old(renderer)@)
        } else {
            old(renderer)@
        },
{
    match event {
        LoopEvent::CloseRequested => LoopStep {
            flow: Some(ControlFlow::Exit),
            action: LoopAction::Nothing,
        },
        LoopEvent::KeyboardInput => LoopStep { flow: None, action: LoopAction::SendKeyboardInput },
        LoopEvent::Resized(size) => {
            renderer.invalidate_surface();
            LoopStep { flow: None, action: LoopAction::SendWindowResized(size) }
        },
        LoopEvent::OtherWindowEvent => LoopStep {
            flow: Some(ControlFlow::Poll),
            action: LoopAction::Nothing,
        },
        LoopEvent::MouseMotion => LoopStep { flow: None, action: LoopAction::SendMouseMotion },
        LoopEvent::MainEventsCleared => LoopStep { flow: None, action: LoopAction::UpdateApp },
        LoopEvent::RedrawRequested => LoopStep { flow: None, action: LoopAction::DoFrame },
        LoopEvent::RedrawEventsCleared => LoopStep { flow: None, action: LoopAction::RequestRedraw },
        LoopEvent::Other => LoopStep { flow: Some(ControlFlow::Poll), action: LoopAction::Nothing },
    }
}

} // verus!
