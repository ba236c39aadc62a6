//! The camera: when its projection is recomputed, and which way it moves.
//!
//! Floating-point values are carried as `f32` bit patterns. The projection
//! matrix itself is computed by the caller.

use crate::plugins::CoreStage;
use vstd::prelude::*;

verus! {

/// The systems that keep a camera's computed projection up to date.
#[derive(Clone, Copy, Debug)]
pub struct CameraPlugin;

/// The systems that let the keyboard and the mouse steer a camera.
#[derive(Clone, Copy, Debug)]
pub struct FlyCameraPlugin;

/// A system of the camera plugins.
#[derive(Clone, Copy, Debug, PartialEq, Eq, Structural)]
pub enum CameraSystem {
    SetupCameraInitial,
    UpdateCameraDimensions,
    UpdateCameraSettings,
    CameraMovement,
    CameraRotation,
}

impl CameraPlugin {
    /// The systems with their stages, in the order in which they are added:
    /// initial setup and the reaction to a resize before the update, the
    /// reaction to changed settings after it.
    pub fn build(&self) -> (r: Vec<(CoreStage, CameraSystem)>)
        ensures
            r@ == seq![
                (CoreStage::PreUpdate, CameraSystem::SetupCameraInitial),
                (CoreStage::PreUpdate, CameraSystem::UpdateCameraDimensions),
                (CoreStage::PostUpdate, CameraSystem::UpdateCameraSettings),
            ],
    {
        let mut r: Vec<(CoreStage, CameraSystem)> = Vec::new();
        r.push((CoreStage::PreUpdate, CameraSystem::SetupCameraInitial));
        r.push((CoreStage::PreUpdate, CameraSystem::UpdateCameraDimensions));
        r.push((CoreStage::PostUpdate, CameraSystem::UpdateCameraSettings));
        assert(r@ =~= seq![
            (CoreStage::PreUpdate, CameraSystem::SetupCameraInitial),
            (CoreStage::PreUpdate, CameraSystem::UpdateCameraDimensions),
            (CoreStage::PostUpdate, CameraSystem::UpdateCameraSettings),
        ]);
        r
    }

    /// The plugin's name.
    pub fn name(&self) -> (r: &'static str)
        ensures
            r@ == "alnyan-camera"@,
    {
        "alnyan-camera"
    }
}

impl FlyCameraPlugin {
    /// The systems with their stage, in the order in which they are added:
    /// movement, then rotation, both during the update.
    pub fn build(&self) -> (r: Vec<(CoreStage, CameraSystem)>)
        ensures
            r@ == seq![
                (CoreStage::Update, CameraSystem::CameraMovement),
                (CoreStage::Update, CameraSystem::CameraRotation),
            ],
    {
        let mut r: Vec<(CoreStage, CameraSystem)> = Vec::new();
        r.push((CoreStage::Update, CameraSystem::CameraMovement));
        r.push((CoreStage::Update, CameraSystem::CameraRotation));
        assert(r@ =~= seq![
            (CoreStage::Update, CameraSystem::CameraMovement),
            (CoreStage::Update, CameraSystem::CameraRotation),
        ]);
        r
    }
}

/// A projection matrix together with the surface dimensions that it was
/// computed for.
#[derive(Clone, Copy, Debug, PartialEq, Eq)]
pub struct ComputedProjection {
    dimensions: [u32; 2],
    projection: [[u32; 4]; 4],
}

/// What a computed projection is, for contracts.
pub struct ComputedProjectionView {
    pub dimensions: [u32; 2],
    pub projection: [[u32; 4]; 4],
}

impl View for ComputedProjection {
    type V = ComputedProjectionView;

    closed spec fn view(&self) -> ComputedProjectionView {
        ComputedProjectionView { dimensions: self.dimensions, projection: self.projection }
    }
}

impl ComputedProjection {
    /// The projection computed for the given dimensions.
    pub fn new(dimensions: [u32; 2], projection: [[u32; 4]; 4]) -> (r: Self)
        ensures
            r@ == (ComputedProjectionView { dimensions: dimensions, projection: projection }),
    {
        ComputedProjection { dimensions: dimensions, projection: projection }
    }

    /// The projection matrix, column by column.
    pub fn transform_matrix(&self) -> (r: &[[u32; 4]; 4])
        ensures
            *r == self@.projection,
    {
        &self.projection
    }

    /// The dimensions that the matrix was computed for.
    pub fn dimensions(&self) -> (r: [u32; 2])
        ensures
            r == self@.dimensions,
    {
        self.dimensions
    }
}

/// The dimensions to compute the projections for: those of the window, once
/// a window was created since the last look.
pub fn setup_camera_initial(windows_created: usize, window_size: [u32; 2]) -> (r: Option<[u32; 2]>)
    ensures
        r == if windows_created > 0 {
            Some(window_size)
        } else {
            None
        },
{
    if windows_created > 0 {
        Some(window_size)
    } else {
        None
    }
}

/// The dimensions to recompute the projections for: those of the last
/// resize, where the window was resized since the last look.
pub fn update_camera_dimensions(resizes: &Vec<[u32; 2]>) -> (r: Option<[u32; 2]>)
    ensures
        r == if resizes@.len() > 0 {
            Some(resizes@.last())
        } else {
            None
        },
{
    if resizes.len() > 0 {
        Some(resizes[resizes.len() - 1])
    } else {
        None
    }
}

/// The dimensions to recompute a projection for after its settings changed:
/// those that it was last computed for.
pub fn update_camera_settings(changed: bool, computed: &ComputedProjection) -> (r: Option<[u32; 2]>)
    ensures
        r == if changed {
            Some(computed@.dimensions)
        } else {
            None
        },
{
    if changed {
        Some(computed.dimensions)
    } else {
        None
    }
}

/// The sign bit of an `f32`.
pub const F32_SIGN: u32 = 0x8000_0000;

/// The negation of an `f32`, on its bit pattern: the sign bit flipped.
pub open spec fn negated(x: u32) -> u32 {
    x ^ F32_SIGN
}

/// The motion along `v` that two opposite keys ask for: `v` while the first
/// is held, its negation while only the second is, else none.
pub open spec fn movement_of(v: [u32; 3], a: bool, b: bool) -> [u32; 3] {
    if a {
        v
    } else if b {
        [negated(v[0]), negated(v[1]), negated(v[2])]
    } else {
        [0u32, 0u32, 0u32]
    }
}

/// The motion along `v` that two opposite keys ask for.
pub fn movement(v: [u32; 3], a: bool, b: bool) -> (r: [u32; 3])
    ensures
        r == movement_of(v, a, b),
{
    if a {
        v
    } else if b {
        [v[0] ^ F32_SIGN, v[1] ^ F32_SIGN, v[2] ^ F32_SIGN]
    } else {
        [0u32, 0u32, 0u32]
    }
}

/// Negating twice gives the value back, and negation changes nothing but
/// the sign bit.
pub proof fn negation_flips_the_sign(x: u32)
    ensures
        negated(negated(x)) == x,
        negated(x) & 0x7fff_ffff == x & 0x7fff_ffff,
        negated(x) & 0x8000_0000 != x & 0x8000_0000,
{
    assert((x ^ 0x8000_0000u32) ^ 0x8000_0000u32 == x) by (bit_vector);
    assert((x ^ 0x8000_0000u32) & 0x7fff_ffffu32 == x & 0x7fff_ffffu32) by (bit_vector);
    assert((x ^ 0x8000_0000u32) & 0x8000_0000u32 != x & 0x8000_0000u32) by (bit_vector);
}

} // verus!
