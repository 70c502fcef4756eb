//! The box as a mathematical object: six faces, four corners to a face, two
//! triangles to a face.
//!
//! The box spans `x` in `[-1, 1]`, `y` in `[-1, 1]` and `z` in `[-2, 0]`. Its
//! vertex sequence holds the faces one after another, four vertices each, and
//! its index sequence holds six indices for each face in the same order. No
//! vertex is shared between faces, so that each face carries texture
//! coordinates and a texture layer of its own.

use vstd::prelude::*;
use crate::geometry::{triangle_normal, Vec3};

verus! {

/// Number of vertices of the mesh.
pub const VERTEX_COUNT: usize = 24;

/// Number of indices of the mesh.
pub const INDEX_COUNT: usize = 36;

/// What a vertex record says, with its coordinates as exact integers.
pub struct VertexView {
    /// Object-space position.
    pub position: Vec3,
    /// Texture coordinates `(u, v)`.
    pub tex_coords: (int, int),
    /// Texture layer that the vertex's face samples.
    pub tex_idx: int,
}

/// A face of the box, named as seen by a viewer on the positive `z` axis
/// looking down the negative `z` axis with `y` pointing up.
pub enum Face {
    /// The face in the plane `z = 0`.
    Front,
    /// The face in the plane `z = -2`.
    Back,
    /// The face in the plane `x = 1`.
    Right,
    /// The face in the plane `x = -1`.
    Left,
    /// The face in the plane `y = 1`.
    Top,
    /// The face in the plane `y = -1`.
    Bottom,
}

/// Shorthand for a point.
pub open spec fn pt(x: int, y: int, z: int) -> Vec3 {
    Vec3 { x, y, z }
}

/// The centre of the box.
pub open spec fn box_center() -> Vec3 {
    pt(0, 0, -1)
}

/// Whether `p` is one of the eight corners of the box.
pub open spec fn is_box_corner(p: Vec3) -> bool {
    &&& p.x == -1 || p.x == 1
    &&& p.y == -1 || p.y == 1
    &&& p.z == -2 || p.z == 0
}

impl Face {
    /// The face that owns vertices `4 * n .. 4 * n + 4` and indices
    /// `6 * n .. 6 * n + 6`.
    pub open spec fn nth(n: int) -> Face {
        if n == 0 {
            Face::Front
        } else if n == 1 {
            Face::Back
        } else if n == 2 {
            Face::Right
        } else if n == 3 {
            Face::Left
        } else if n == 4 {
            Face::Top
        } else {
            Face::Bottom
        }
    }

    /// The unit vector that points away from the box through this face.
    pub open spec fn outward(self) -> Vec3 {
        match self {
            Face::Front => pt(0, 0, 1),
            Face::Back => pt(0, 0, -1),
            Face::Right => pt(1, 0, 0),
            Face::Left => pt(-1, 0, 0),
            Face::Top => pt(0, 1, 0),
            Face::Bottom => pt(0, -1, 0),
        }
    }

    /// Whether `p` lies in the plane of this face.
    pub open spec fn contains(self, p: Vec3) -> bool {
        match self {
            Face::Front => p.z == 0,
            Face::Back => p.z == -2,
            Face::Right => p.x == 1,
            Face::Left => p.x == -1,
            Face::Top => p.y == 1,
            Face::Bottom => p.y == -1,
        }
    }

    /// The texture layer that this face samples: the four sides share layer 0,
    /// the top has layer 1 and the bottom layer 2.
    pub open spec fn tex_layer(self) -> int {
        match self {
            Face::Front | Face::Back | Face::Right | Face::Left => 0,
            Face::Top => 1,
            Face::Bottom => 2,
        }
    }

    /// The positions of the face's four vertices, in the order in which the
    /// vertex sequence holds them.
    pub open spec fn corners(self) -> Seq<Vec3> {
        match self {
            Face::Front => seq![pt(1, 1, 0), pt(1, -1, 0), pt(-1, 1, 0), pt(-1, -1, 0)],
            Face::Back => seq![pt(1, 1, -2), pt(1, -1, -2), pt(-1, 1, -2), pt(-1, -1, -2)],
            Face::Right => seq![pt(1, -1, 0), pt(1, 1, 0), pt(1, 1, -2), pt(1, -1, -2)],
            Face::Left => seq![pt(-1, 1, 0), pt(-1, -1, 0), pt(-1, 1, -2), pt(-1, -1, -2)],
            Face::Top => seq![pt(1, 1, 0), pt(-1, 1, 0), pt(1, 1, -2), pt(-1, 1, -2)],
            Face::Bottom => seq![pt(1, -1, 0), pt(-1, -1, 0), pt(1, -1, -2), pt(-1, -1, -2)],
        }
    }

    /// The texture coordinates of the face's four vertices, in the same order
    /// as `corners`.
    pub open spec fn tex_coords(self) -> Seq<(int, int)> {
        match self {
            Face::Front | Face::Back | Face::Left => seq![(1, 0), (1, 1), (0, 0), (0, 1)],
            Face::Right => seq![(0, 1), (0, 0), (1, 0), (1, 1)],
            Face::Top | Face::Bottom => seq![(1, 1), (0, 1), (1, 0), (0, 0)],
        }
    }

    /// The face's two triangles: six numbers in `0 .. 4`, each naming one of the
    /// face's own corners.
    pub open spec fn triangles(self) -> Seq<int> {
        match self {
            Face::Front => seq![0, 2, 1, 1, 2, 3],
            Face::Back => seq![2, 0, 1, 2, 1, 3],
            Face::Right => seq![0, 2, 1, 0, 3, 2],
            Face::Left | Face::Top => seq![0, 2, 3, 3, 1, 0],
            Face::Bottom => seq![3, 2, 0, 0, 1, 3],
        }
    }
}

/// Vertex `k` (0 to 3) of face `f` (0 to 5).
pub open spec fn face_vertex(f: int, k: int) -> VertexView {
    let face = Face::nth(f);
    VertexView {
        position: face.corners()[k],
        tex_coords: face.tex_coords()[k],
        tex_idx: face.tex_layer(),
    }
}

/// Index `m` (0 to 5) of face `f` (0 to 5): the number, in the whole vertex
/// sequence, of the face's own vertex that the triangle table names.
pub open spec fn face_index(f: int, m: int) -> int {
    4 * f + Face::nth(f).triangles()[m]
}

/// The vertex in slot `i` of the vertex sequence, for `0 <= i < 24`.
pub open spec fn box_vertex(i: int) -> VertexView {
    face_vertex(i / 4, i % 4)
}

/// The index in slot `j` of the index sequence, for `0 <= j < 36`.
pub open spec fn box_index(j: int) -> int {
    face_index(j / 6, j % 6)
}

/// The vertex sequence of the box.
pub open spec fn box_vertices() -> Seq<VertexView> {
    Seq::new(VERTEX_COUNT as nat, |i: int| box_vertex(i))
}

/// The index sequence of the box.
pub open spec fn box_indices() -> Seq<int> {
    Seq::new(INDEX_COUNT as nat, |j: int| box_index(j))
}

/// Edge `e` (0, 1 or 2) of triangle `t` of face `f`, as the pair of the vertex
/// numbers that it runs from and to.
pub open spec fn face_edge(f: int, t: int, e: int) -> (int, int) {
    (face_index(f, 3 * t + e), face_index(f, 3 * t + (e + 1) % 3))
}

/// Whether edge `b` joins the same two vertices as edge `a`, the other way
/// round.
pub open spec fn is_reverse(a: (int, int), b: (int, int)) -> bool {
    a.0 == b.1 && a.1 == b.0
}

/// Whether the two triangles of face `f` have an edge in common that the
/// first runs through in one direction and the second in the other.
pub open spec fn triangles_meet(f: int) -> bool {
    exists|e: int, d: int|
        0 <= e < 3 && 0 <= d < 3 && is_reverse(
            #[trigger] face_edge(f, 0, e),
            #[trigger] face_edge(f, 1, d),
        )
}

/// Whether one of the six indices of face `f` refers to the face's vertex `k`.
pub open spec fn face_uses_vertex(f: int, k: int) -> bool {
    exists|m: int| 0 <= m < 6 && #[trigger] face_index(f, m) == 4 * f + k
}

/// Whether every index names one of `vertex_count` vertices.
pub open spec fn indices_in_range(indices: Seq<int>, vertex_count: int) -> bool {
    forall|j: int| 0 <= j < indices.len() ==> 0 <= #[trigger] indices[j] < vertex_count
}

/// Whether every texture coordinate is 0 or 1, with no value in between.
pub open spec fn tex_coords_binary(vertices: Seq<VertexView>) -> bool {
    forall|i: int|
        0 <= i < vertices.len() ==> {
            let (u, v) = (#[trigger] vertices[i]).tex_coords;
            (u == 0 || u == 1) && (v == 0 || v == 1)
        }
}

/// Whether every vertex is on the texture layer of the face that owns it: the
/// first sixteen vertices, those of the four sides, on layer 0, the next four on
/// layer 1 and the last four on layer 2.
pub open spec fn tex_layers_by_face(vertices: Seq<VertexView>) -> bool {
    forall|i: int|
        0 <= i < vertices.len() ==> (#[trigger] vertices[i]).tex_idx == Face::nth(i / 4).tex_layer()
}

/// The position of the vertex that slot `j` of `indices` refers to.
pub open spec fn indexed_position(vertices: Seq<VertexView>, indices: Seq<int>, j: int) -> Vec3 {
    vertices[indices[j]].position
}

/// The normal of triangle `t` (0 or 1) of face `f` of a mesh that holds its
/// faces one after another, by the order of the triangle's three indices.
pub open spec fn face_normal(vertices: Seq<VertexView>, indices: Seq<int>, f: int, t: int) -> Vec3 {
    let j = 6 * f + 3 * t;
    triangle_normal(
        indexed_position(vertices, indices, j),
        indexed_position(vertices, indices, j + 1),
        indexed_position(vertices, indices, j + 2),
    )
}

/// Whether both triangles of every face are wound counter-clockwise as seen
/// from outside the box: the normal of each is four times the outward unit
/// vector of its face (a triangle is half of a 2 by 2 square), and it points
/// away from the centre of the box.
pub open spec fn wound_outward(vertices: Seq<VertexView>, indices: Seq<int>) -> bool {
    forall|f: int, t: int|
        0 <= f < 6 && 0 <= t < 2 ==> {
            let normal = #[trigger] face_normal(vertices, indices, f, t);
            let corner = indexed_position(vertices, indices, 6 * f + 3 * t);
            &&& normal == Face::nth(f).outward().scaled(4)
            &&& normal.dot(corner.minus(box_center())) > 0
        }
}

/// Every index of the box names one of its 24 vertices.
pub proof fn lemma_indices_in_range()
    ensures
        indices_in_range(box_indices(), VERTEX_COUNT as int),
{
}

/// Every index of the box names a vertex of the face that the index belongs to.
pub proof fn lemma_index_stays_in_face(j: int)
    requires
        0 <= j < INDEX_COUNT,
    ensures
        box_index(j) / 4 == j / 6,
{
}

/// Every vertex sits on a corner of the box, in the plane of the face that
/// owns it, and that plane lies one unit from the centre of the box in the
/// face's outward direction.
pub proof fn lemma_vertex_on_face(i: int)
    requires
        0 <= i < VERTEX_COUNT,
    ensures
        is_box_corner(box_vertex(i).position),
        Face::nth(i / 4).contains(box_vertex(i).position),
        box_vertex(i).position.minus(box_center()).dot(Face::nth(i / 4).outward()) == 1,
{
    let face = Face::nth(i / 4);
    let v = box_vertex(i).position.minus(box_center());
    let o = face.outward();
    assert(face.contains(box_vertex(i).position));
    assert(v.dot(o) == 1) by (nonlinear_arith)
        requires
            -1 <= o.x <= 1,
            -1 <= o.y <= 1,
            -1 <= o.z <= 1,
            o.x != 0 ==> o.y == 0 && o.z == 0 && v.x == o.x,
            o.y != 0 ==> o.x == 0 && o.z == 0 && v.y == o.y,
            o.z != 0 ==> o.x == 0 && o.y == 0 && v.z == o.z,
            o.x != 0 || o.y != 0 || o.z != 0,
    ;
}

/// The four vertices of a face are four different corners and carry four
/// different texture coordinates.
pub proof fn lemma_face_vertices_distinct(i: int, k: int)
    requires
        0 <= i < k < VERTEX_COUNT,
        i / 4 == k / 4,
    ensures
        box_vertex(i).position != box_vertex(k).position,
        box_vertex(i).tex_coords != box_vertex(k).tex_coords,
{
}

/// The texture coordinates of the box are 0 or 1.
pub proof fn lemma_tex_coords_binary()
    ensures
        tex_coords_binary(box_vertices()),
{
}

/// The vertices of the four sides of the box are on texture layer 0, those of
/// the top on layer 1 and those of the bottom on layer 2.
pub proof fn lemma_tex_layers()
    ensures
        tex_layers_by_face(box_vertices()),
        forall|i: int|
            0 <= i < 24 ==> (#[trigger] box_vertices()[i]).tex_idx == if i < 16 {
                0int
            } else if i < 20 {
                1int
            } else {
                2int
            },
{
}

/// Both triangles of every face of the box are wound outward.
pub proof fn lemma_winding_outward()
    ensures
        wound_outward(box_vertices(), box_indices()),
{
    let vertices = box_vertices();
    let indices = box_indices();
    assert forall|f: int, t: int| 0 <= f < 6 && 0 <= t < 2 implies {
        let normal = #[trigger] face_normal(vertices, indices, f, t);
        let corner = indexed_position(vertices, indices, 6 * f + 3 * t);
        &&& normal == Face::nth(f).outward().scaled(4)
        &&& normal.dot(corner.minus(box_center())) > 0
    } by {
        let face = Face::nth(f);
        let j = 6 * f + 3 * t;
        lemma_indexed_corner(f, 3 * t);
        lemma_indexed_corner(f, 3 * t + 1);
        lemma_indexed_corner(f, 3 * t + 2);
        lemma_corner_normals(face, t);
        lemma_vertex_on_face(box_index(j));
        let n = face_normal(vertices, indices, f, t);
        let o = face.outward();
        let v = indexed_position(vertices, indices, j).minus(box_center());
        assert(n.dot(v) == 4) by (nonlinear_arith)
            requires
                n == o.scaled(4),
                v.dot(o) == 1,
        ;
    }
}

/// The two triangles of a face meet along one edge, which they run through in
/// opposite directions, and between them they use all four vertices of the
/// face.
pub proof fn lemma_triangles_share_edge(f: int, k: int)
    requires
        0 <= f < 6,
        0 <= k < 4,
    ensures
        triangles_meet(f),
        face_uses_vertex(f, k),
{
    let face = Face::nth(f);
    match face {
        Face::Front => assert(is_reverse(face_edge(f, 0, 1), face_edge(f, 1, 0))),
        Face::Back => assert(is_reverse(face_edge(f, 0, 2), face_edge(f, 1, 0))),
        Face::Right => assert(is_reverse(face_edge(f, 0, 0), face_edge(f, 1, 2))),
        Face::Left | Face::Top | Face::Bottom => assert(is_reverse(
            face_edge(f, 0, 2),
            face_edge(f, 1, 2),
        )),
    }
    let tri = face.triangles();
    let m = if tri[0] == k {
        0int
    } else if tri[1] == k {
        1int
    } else if tri[2] == k {
        2int
    } else if tri[3] == k {
        3int
    } else if tri[4] == k {
        4int
    } else {
        5int
    };
    assert(face_index(f, m) == 4 * f + k);
}

/// The position that slot `6 * f + m` of the box's indices refers to is the
/// corner of face `f` that the face's triangle table names.
proof fn lemma_indexed_corner(f: int, m: int)
    requires
        0 <= f < 6,
        0 <= m < 6,
    ensures
        indexed_position(box_vertices(), box_indices(), 6 * f + m) == Face::nth(f).corners()[Face::nth(
            f,
        ).triangles()[m]],
{
    let j = 6 * f + m;
    let k = Face::nth(f).triangles()[m];
    assert(j / 6 == f && j % 6 == m);
    assert(0 <= k < 4);
    assert(box_indices()[j] == 4 * f + k);
    assert((4 * f + k) / 4 == f && (4 * f + k) % 4 == k);
    assert(box_vertices()[4 * f + k] == face_vertex(f, k));
}

/// The normal of triangle `t` of a face, from the face's corner and triangle
/// tables.
proof fn lemma_corner_normals(face: Face, t: int)
    requires
        0 <= t < 2,
    ensures
        triangle_normal(
            face.corners()[face.triangles()[3 * t]],
            face.corners()[face.triangles()[3 * t + 1]],
            face.corners()[face.triangles()[3 * t + 2]],
        ) == face.outward().scaled(4),
{
    match face {
        Face::Front => {
            assert(triangle_normal(pt(1, 1, 0), pt(-1, 1, 0), pt(1, -1, 0)) == pt(0, 0, 4))
                by (nonlinear_arith);
            assert(triangle_normal(pt(1, -1, 0), pt(-1, 1, 0), pt(-1, -1, 0)) == pt(0, 0, 4))
                by (nonlinear_arith);
        },
        Face::Back => {
            assert(triangle_normal(pt(-1, 1, -2), pt(1, 1, -2), pt(1, -1, -2)) == pt(0, 0, -4))
                by (nonlinear_arith);
            assert(triangle_normal(pt(-1, 1, -2), pt(1, -1, -2), pt(-1, -1, -2)) == pt(0, 0, -4))
                by (nonlinear_arith);
        },
        Face::Right => {
            assert(triangle_normal(pt(1, -1, 0), pt(1, 1, -2), pt(1, 1, 0)) == pt(4, 0, 0))
                by (nonlinear_arith);
            assert(triangle_normal(pt(1, -1, 0), pt(1, -1, -2), pt(1, 1, -2)) == pt(4, 0, 0))
                by (nonlinear_arith);
        },
        Face::Left => {
            assert(triangle_normal(pt(-1, 1, 0), pt(-1, 1, -2), pt(-1, -1, -2)) == pt(-4, 0, 0))
                by (nonlinear_arith);
            assert(triangle_normal(pt(-1, -1, -2), pt(-1, -1, 0), pt(-1, 1, 0)) == pt(-4, 0, 0))
                by (nonlinear_arith);
        },
        Face::Top => {
            assert(triangle_normal(pt(1, 1, 0), pt(1, 1, -2), pt(-1, 1, -2)) == pt(0, 4, 0))
                by (nonlinear_arith);
            assert(triangle_normal(pt(-1, 1, -2), pt(-1, 1, 0), pt(1, 1, 0)) == pt(0, 4, 0))
                by (nonlinear_arith);
        },
        Face::Bottom => {
            assert(triangle_normal(pt(-1, -1, -2), pt(1, -1, -2), pt(1, -1, 0)) == pt(0, -4, 0))
                by (nonlinear_arith);
            assert(triangle_normal(pt(1, -1, 0), pt(-1, -1, 0), pt(-1, -1, -2)) == pt(0, -4, 0))
                by (nonlinear_arith);
        },
    }
}

} // verus!
