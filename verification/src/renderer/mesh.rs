//! Geometry that is compiled once and drawn many times.

use crate::data::Vertex;
use vstd::prelude::*;

verus! {

/// The contents of a vertex buffer and of an index buffer. They are set when
/// the mesh is made and never change.
#[derive(Debug)]
pub struct DisplayMesh {
    vertices: Vec<Vertex>,
    indices: Vec<u32>,
}

/// What a mesh is, for contracts.
pub struct DisplayMeshView {
    pub vertices: Seq<Vertex>,
    pub indices: Seq<u32>,
}

impl View for DisplayMesh {
    type V = DisplayMeshView;

    closed spec fn view(&self) -> DisplayMeshView {
        DisplayMeshView { vertices: self.vertices@, indices: self.indices@ }
    }
}

/// The number of indices fits the counter of an indexed draw. Every mesh
/// is such.
pub open spec fn drawable(m: DisplayMeshView) -> bool {
    m.indices.len() <= u32::MAX
}

impl DisplayMesh {
    #[verifier::type_invariant]
    closed spec fn indices_countable(self) -> bool {
        drawable(self@)
    }

    /// A mesh of the given vertices and indices.
    pub fn new(vertices: Vec<Vertex>, indices: Vec<u32>) -> (r: Self)
        requires
            indices@.len() <= u32::MAX,
        ensures
            r@ == (DisplayMeshView { vertices: vertices@, indices: indices@ }),
            drawable(r@),
    {
        DisplayMesh { vertices: vertices, indices: indices }
    }

    /// The contents of the index buffer.
    pub fn indices(&self) -> (r: &Vec<u32>)
        ensures
            r@ == self@.indices,
            drawable(self@),
    {
        proof {
            use_type_invariant(self);
        }
        &self.indices
    }

    /// The contents of the vertex buffer.
    pub fn vertices(&self) -> (r: &Vec<Vertex>)
        ensures
            r@ == self@.vertices,
    {
        &self.vertices
    }

    /// The number of indices that a draw of the whole mesh covers.
    pub fn index_count(&self) -> (r: u32)
        ensures
            r == self@.indices.len(),
            drawable(self@),
    {
        proof {
            use_type_invariant(self);
        }
        self.indices.len() as u32
    }
}

} // verus!
