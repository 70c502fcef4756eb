//! The vertex record, its buffer layout, and the generator of the box mesh.

use vstd::prelude::*;
use crate::geometry::Vec3;
use crate::layout::{VertexAttribute, VertexBufferLayout, VertexFormat, VertexStepMode};
use crate::mesh::{
    box_index, box_indices, box_vertex, box_vertices, indices_in_range, lemma_tex_coords_binary,
    lemma_tex_layers, lemma_winding_outward, tex_coords_binary, tex_layers_by_face, wound_outward,
    VertexView, INDEX_COUNT, VERTEX_COUNT,
};

verus! {

/// One vertex of a mesh.
///
/// A record holds three position coordinates, two texture coordinates and a
/// texture layer, in this order. The coordinates are whole numbers and are
/// kept as the integers that the constructor was given. In the buffer that
/// `desc` lays out each of them is a 32-bit float, which holds every such
/// integer exactly.
#[derive(Copy, Clone, Debug, PartialEq, Eq)]
pub struct Vertex {
    position: [i8; 3],
    tex_coords: [i8; 2],
    tex_idx: u32,
}

impl View for Vertex {
    type V = VertexView;

    closed spec fn view(&self) -> VertexView {
        VertexView {
            position: Vec3 {
                x: self.position[0] as int,
                y: self.position[1] as int,
                z: self.position[2] as int,
            },
            tex_coords: (self.tex_coords[0] as int, self.tex_coords[1] as int),
            tex_idx: self.tex_idx as int,
        }
    }
}

/// The distance in bytes from one vertex record to the next.
pub const VERTEX_STRIDE: u64 = 24;

/// The attributes of a vertex record: the position in slot 0 at offset 0, the
/// texture coordinates in slot 1 at offset 12, the texture layer in slot 2 at
/// offset 20.
pub open spec fn vertex_attributes() -> Seq<VertexAttribute> {
    seq![
        VertexAttribute { format: VertexFormat::Float32x3, offset: 0, shader_location: 0 },
        VertexAttribute { format: VertexFormat::Float32x2, offset: 12, shader_location: 1 },
        VertexAttribute { format: VertexFormat::Sint32, offset: 20, shader_location: 2 },
    ]
}

impl Vertex {
    /// Makes a vertex at `pos` with texture coordinates `tc` on texture layer
    /// `tex_idx`.
    pub fn new(pos: [i8; 3], tc: [i8; 2], tex_idx: u32) -> (vertex: Vertex)
        ensures
            vertex@ == (VertexView {
                position: Vec3 { x: pos[0] as int, y: pos[1] as int, z: pos[2] as int },
                tex_coords: (tc[0] as int, tc[1] as int),
                tex_idx: tex_idx as int,
            }),
    {
        Vertex { position: pos, tex_coords: tc, tex_idx }
    }

    /// Describes how a pipeline reads a buffer of vertex records: one record
    /// for each vertex, its three fields back to back.
    pub fn desc() -> (layout: VertexBufferLayout)
        ensures
            layout.array_stride == VERTEX_STRIDE,
            layout.step_mode == VertexStepMode::Vertex,
            layout.attributes@ == vertex_attributes(),
            layout.is_packed(),
    {
        let position = VertexFormat::Float32x3;
        let tex_coords = VertexFormat::Float32x2;
        let tex_idx = VertexFormat::Sint32;
        let mut attributes: Vec<VertexAttribute> = Vec::new();
        let mut offset: u64 = 0;
        attributes.push(VertexAttribute { format: position, offset, shader_location: 0 });
        offset = offset + position.size();
        attributes.push(VertexAttribute { format: tex_coords, offset, shader_location: 1 });
        offset = offset + tex_coords.size();
        attributes.push(VertexAttribute { format: tex_idx, offset, shader_location: 2 });
        offset = offset + tex_idx.size();
        VertexBufferLayout { array_stride: offset, step_mode: VertexStepMode::Vertex, attributes }
    }

    /// The position of the vertex in object space: `x`, `y`, `z`.
    pub fn position(&self) -> (pos: [i8; 3])
        ensures
            pos[0] == self@.position.x,
            pos[1] == self@.position.y,
            pos[2] == self@.position.z,
    {
        self.position
    }

    /// The texture coordinates of the vertex: `u`, `v`.
    pub fn tex_coords(&self) -> (tc: [i8; 2])
        ensures
            tc[0] == self@.tex_coords.0,
            tc[1] == self@.tex_coords.1,
    {
        self.tex_coords
    }

    /// The texture layer that the vertex's face samples.
    pub fn tex_idx(&self) -> (layer: u32)
        ensures
            layer == self@.tex_idx,
    {
        self.tex_idx
    }

    /// Two vertices that say the same are the same.
    pub proof fn lemma_view_injective(self, other: Vertex)
        requires
            self@ == other@,
        ensures
            self == other,
    {
        assert(self.position =~= other.position);
        assert(self.tex_coords =~= other.tex_coords);
    }
}

/// What a sequence of vertex records says: the view of each, in order.
pub open spec fn vertex_views(vertices: Seq<Vertex>) -> Seq<VertexView> {
    vertices.map_values(|v: Vertex| v@)
}

/// A sequence of indices as mathematical integers.
pub open spec fn index_values(indices: Seq<u16>) -> Seq<int> {
    indices.map_values(|i: u16| i as int)
}

/// Whether `vertices` and `indices` are the vertex and index sequences of the
/// box.
pub open spec fn is_box_mesh(vertices: Seq<Vertex>, indices: Seq<u16>) -> bool {
    &&& vertices.len() == VERTEX_COUNT
    &&& indices.len() == INDEX_COUNT
    &&& forall|i: int| 0 <= i < vertices.len() ==> (#[trigger] vertices[i])@ == box_vertex(i)
    &&& forall|j: int| 0 <= j < indices.len() ==> (#[trigger] indices[j]) as int == box_index(j)
}

/// There is one box mesh: any two are equal, vertex for vertex and index for
/// index. So every call of `create_vertices` returns the same sequences.
pub proof fn lemma_box_mesh_unique(
    vertices: Seq<Vertex>,
    indices: Seq<u16>,
    other_vertices: Seq<Vertex>,
    other_indices: Seq<u16>,
)
    requires
        is_box_mesh(vertices, indices),
        is_box_mesh(other_vertices, other_indices),
    ensures
        vertices == other_vertices,
        indices == other_indices,
{
    assert forall|i: int| 0 <= i < vertices.len() implies vertices[i] == other_vertices[i] by {
        vertices[i].lemma_view_injective(other_vertices[i]);
    }
    assert(vertices =~= other_vertices);
    assert(indices =~= other_indices);
}

/// Returns the vertices and the triangle indices of the box.
///
/// The result is the same on every call: 24 vertices, four for each face in
/// the order front, back, right, left, top, bottom, and 36 indices, six for
/// each face in the same order.
pub fn create_vertices() -> (mesh: (Vec<Vertex>, Vec<u16>))
    ensures
        is_box_mesh(mesh.0@, mesh.1@),
        vertex_views(mesh.0@) == box_vertices(),
        index_values(mesh.1@) == box_indices(),
        indices_in_range(index_values(mesh.1@), mesh.0@.len() as int),
        tex_coords_binary(vertex_views(mesh.0@)),
        tex_layers_by_face(vertex_views(mesh.0@)),
        wound_outward(vertex_views(mesh.0@), index_values(mesh.1@)),
{
    let vertices = vec![
        // front
        Vertex::new([1, 1, 0], [1, 0], 0),
        Vertex::new([1, -1, 0], [1, 1], 0),
        Vertex::new([-1, 1, 0], [0, 0], 0),
        Vertex::new([-1, -1, 0], [0, 1], 0),
        // back
        Vertex::new([1, 1, -2], [1, 0], 0),
        Vertex::new([1, -1, -2], [1, 1], 0),
        Vertex::new([-1, 1, -2], [0, 0], 0),
        Vertex::new([-1, -1, -2], [0, 1], 0),
        // right
        Vertex::new([1, -1, 0], [0, 1], 0),
        Vertex::new([1, 1, 0], [0, 0], 0),
        Vertex::new([1, 1, -2], [1, 0], 0),
        Vertex::new([1, -1, -2], [1, 1], 0),
        // left
        Vertex::new([-1, 1, 0], [1, 0], 0),
        Vertex::new([-1, -1, 0], [1, 1], 0),
        Vertex::new([-1, 1, -2], [0, 0], 0),
        Vertex::new([-1, -1, -2], [0, 1], 0),
        // top
        Vertex::new([1, 1, 0], [1, 1], 1),
        Vertex::new([-1, 1, 0], [0, 1], 1),
        Vertex::new([1, 1, -2], [1, 0], 1),
        Vertex::new([-1, 1, -2], [0, 0], 1),
        // bottom
        Vertex::new([1, -1, 0], [1, 1], 2),
        Vertex::new([-1, -1, 0], [0, 1], 2),
        Vertex::new([1, -1, -2], [1, 0], 2),
        Vertex::new([-1, -1, -2], [0, 0], 2),
    ];
    let indices: Vec<u16> = vec![
        0, 2, 1, 1, 2, 3,  // front
        6, 4, 5, 6, 5, 7,  // back
        8, 10, 9, 8, 11, 10,  // right
        12, 14, 15, 15, 13, 12,  // left
        16, 18, 19, 19, 17, 16,  // top
        23, 22, 20, 20, 21, 23,  // bottom
    ];
    proof {
        assert(vertex_views(vertices@) =~= box_vertices());
        assert(index_values(indices@) =~= box_indices());
        lemma_tex_coords_binary();
        lemma_tex_layers();
        lemma_winding_outward();
    }
    (vertices, indices)
}

} // verus!
