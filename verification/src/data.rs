//! The vertex record and its layout in a vertex buffer.
//!
//! Floating-point attributes are carried as their IEEE-754 single-precision
//! bit patterns, one `u32` per component, which is what a buffer holds.

use vstd::prelude::*;

verus! {

/// One vertex: position, texture coordinates and normal, each component the
/// bit pattern of an `f32`.
#[derive(Clone, Copy, Debug, PartialEq, Eq, Default)]
pub struct Vertex {
    pub position: [u32; 3],
    pub tex_coords: [u32; 2],
    pub normal: [u32; 3],
}

/// One attribute of the vertex input: where it starts in the record and how
/// many 32-bit float components it has.
#[derive(Clone, Copy, Debug, PartialEq, Eq, Structural)]
pub struct VertexAttribute {
    pub location: u32,
    pub offset: u32,
    pub components: u32,
}

/// The size in bytes of one vertex record.
pub const VERTEX_STRIDE: u32 = 32;

/// The size in bytes of an attribute.
pub open spec fn attribute_size(a: VertexAttribute) -> int {
    4 * a.components
}

/// The layout of `Vertex`: position, texture coordinates, normal, in
/// declaration order and without padding.
pub open spec fn vertex_layout() -> Seq<VertexAttribute> {
    seq![
        VertexAttribute { location: 0, offset: 0, components: 3 },
        VertexAttribute { location: 1, offset: 12, components: 2 },
        VertexAttribute { location: 2, offset: 20, components: 3 },
    ]
}

/// The attributes follow one another without gap or overlap from byte 0 to
/// `stride`.
pub open spec fn tiles(layout: Seq<VertexAttribute>, stride: int) -> bool {
    &&& layout.len() > 0
    &&& layout[0].offset == 0
    &&& forall|i: int|
        0 <= i < layout.len() - 1 ==> (#[trigger] layout[i]).offset + attribute_size(layout[i])
            == layout[i + 1].offset
    &&& layout.last().offset + attribute_size(layout.last()) == stride
}

/// The vertex input attributes that a pipeline is built with.
pub fn vertex_attributes() -> (r: Vec<VertexAttribute>)
    ensures
        r@ == vertex_layout(),
{
    let mut r: Vec<VertexAttribute> = Vec::new();
    r.push(VertexAttribute { location: 0, offset: 0, components: 3 });
    r.push(VertexAttribute { location: 1, offset: 12, components: 2 });
    r.push(VertexAttribute { location: 2, offset: 20, components: 3 });
    assert(r@ =~= vertex_layout());
    r
}

/// The words of a vertex in buffer order.
pub open spec fn vertex_words(v: Vertex) -> Seq<u32> {
    v.position@ + v.tex_coords@ + v.normal@
}

/// The layout that pipelines are built with covers the vertex record
/// exactly: its attributes tile the stride, and the stride is the size of
/// the record's words.
pub proof fn vertex_layout_matches_record(v: Vertex)
    ensures
        tiles(vertex_layout(), VERTEX_STRIDE as int),
        4 * vertex_words(v).len() == VERTEX_STRIDE,
        forall|i: int|
            0 <= i < vertex_layout().len() ==> (#[trigger] vertex_layout()[i]).location == i,
{
    assert(v.position@.len() == 3);
    assert(v.tex_coords@.len() == 2);
    assert(v.normal@.len() == 3);
}

} // verus!
