//! What the renderer adds to an application: systems and where they run.

pub mod camera;
pub mod loader;
pub mod renderer;

pub use self::renderer::RendererPlugin;

use vstd::prelude::*;

verus! {

/// The stage of an application's update in which a system runs.
#[derive(Clone, Copy, Debug, PartialEq, Eq, Structural)]
pub enum CoreStage {
    PreUpdate,
    Update,
    PostUpdate,
}

/// The renderer's plugins together with those that they depend on.
#[derive(Clone, Copy, Debug)]
pub struct DefaultRendererPlugins;

/// A plugin of the default group.
#[derive(Clone, Copy, Debug, PartialEq, Eq, Structural)]
pub enum GroupMember {
    Asset,
    Input,
    Window,
    Loader,
    Renderer,
    Camera,
}

impl DefaultRendererPlugins {
    /// The plugins of the group in the order in which they are added: first
    /// what the renderer depends on (assets, input, windows), then the
    /// loader, the renderer and the camera.
    pub fn build(&self) -> (r: Vec<GroupMember>)
        ensures
            r@ == seq![
                GroupMember::Asset,
                GroupMember::Input,
                GroupMember::Window,
                GroupMember::Loader,
                GroupMember::Renderer,
                GroupMember::Camera,
            ],
    {
        let mut r: Vec<GroupMember> = Vec::new();
        r.push(GroupMember::Asset);
        r.push(GroupMember::Input);
        r.push(GroupMember::Window);
        r.push(GroupMember::Loader);
        r.push(GroupMember::Renderer);
        r.push(GroupMember::Camera);
        assert(r@ =~= seq![
            GroupMember::Asset,
            GroupMember::Input,
            GroupMember::Window,
            GroupMember::Loader,
            GroupMember::Renderer,
            GroupMember::Camera,
        ]);
        r
    }
}

} // verus!
