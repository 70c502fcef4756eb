use box_mesh::mesh::{INDEX_COUNT, VERTEX_COUNT};
use box_mesh::vertex::{create_vertices, Vertex};

const FACES: usize = 6;

fn position(v: &Vertex) -> [i32; 3] {
    let p = v.position();
    [p[0] as i32, p[1] as i32, p[2] as i32]
}

fn minus(a: [i32; 3], b: [i32; 3]) -> [i32; 3] {
    [a[0] - b[0], a[1] - b[1], a[2] - b[2]]
}

fn cross(a: [i32; 3], b: [i32; 3]) -> [i32; 3] {
    [a[1] * b[2] - a[2] * b[1], a[2] * b[0] - a[0] * b[2], a[0] * b[1] - a[1] * b[0]]
}

fn dot(a: [i32; 3], b: [i32; 3]) -> i32 {
    a[0] * b[0] + a[1] * b[1] + a[2] * b[2]
}

fn normal(vertices: &[Vertex], indices: &[u16], first: usize) -> [i32; 3] {
    let a = position(&vertices[indices[first] as usize]);
    let b = position(&vertices[indices[first + 1] as usize]);
    let c = position(&vertices[indices[first + 2] as usize]);
    cross(minus(b, a), minus(c, a))
}

fn outward(face: usize) -> [i32; 3] {
    match face {
        0 => [0, 0, 1],
        1 => [0, 0, -1],
        2 => [1, 0, 0],
        3 => [-1, 0, 0],
        4 => [0, 1, 0],
        5 => [0, -1, 0],
        _ => unreachable!(),
    }
}

#[test]
fn mesh_has_24_vertices_and_36_indices() {
    let (vertices, indices) = create_vertices();
    assert_eq!(vertices.len(), 24);
    assert_eq!(indices.len(), 36);
    assert_eq!(VERTEX_COUNT, 24);
    assert_eq!(INDEX_COUNT, 36);
}

#[test]
fn vertices_match_the_table() {
    let expected: Vec<([i8; 3], [i8; 2], u32)> = vec![
        ([1, 1, 0], [1, 0], 0),
        ([1, -1, 0], [1, 1], 0),
        ([-1, 1, 0], [0, 0], 0),
        ([-1, -1, 0], [0, 1], 0),
        ([1, 1, -2], [1, 0], 0),
        ([1, -1, -2], [1, 1], 0),
        ([-1, 1, -2], [0, 0], 0),
        ([-1, -1, -2], [0, 1], 0),
        ([1, -1, 0], [0, 1], 0),
        ([1, 1, 0], [0, 0], 0),
        ([1, 1, -2], [1, 0], 0),
        ([1, -1, -2], [1, 1], 0),
        ([-1, 1, 0], [1, 0], 0),
        ([-1, -1, 0], [1, 1], 0),
        ([-1, 1, -2], [0, 0], 0),
        ([-1, -1, -2], [0, 1], 0),
        ([1, 1, 0], [1, 1], 1),
        ([-1, 1, 0], [0, 1], 1),
        ([1, 1, -2], [1, 0], 1),
        ([-1, 1, -2], [0, 0], 1),
        ([1, -1, 0], [1, 1], 2),
        ([-1, -1, 0], [0, 1], 2),
        ([1, -1, -2], [1, 0], 2),
        ([-1, -1, -2], [0, 0], 2),
    ];
    let (vertices, _) = create_vertices();
    assert_eq!(vertices.len(), expected.len());
    for (i, (pos, tc, layer)) in expected.iter().enumerate() {
        assert_eq!(vertices[i].position(), *pos, "position of vertex {}", i);
        assert_eq!(vertices[i].tex_coords(), *tc, "texture coordinates of vertex {}", i);
        assert_eq!(vertices[i].tex_idx(), *layer, "texture layer of vertex {}", i);
        assert_eq!(vertices[i], Vertex::new(*pos, *tc, *layer));
    }
}

#[test]
fn indices_match_the_table() {
    let expected: Vec<u16> = vec![
        0, 2, 1, 1, 2, 3, 6, 4, 5, 6, 5, 7, 8, 10, 9, 8, 11, 10, 12, 14, 15, 15, 13, 12, 16, 18,
        19, 19, 17, 16, 23, 22, 20, 20, 21, 23,
    ];
    let (_, indices) = create_vertices();
    assert_eq!(indices, expected);
}

#[test]
fn repeated_calls_give_identical_sequences() {
    let (vertices_a, indices_a) = create_vertices();
    let (vertices_b, indices_b) = create_vertices();
    assert_eq!(vertices_a.len(), vertices_b.len());
    assert_eq!(indices_a.len(), indices_b.len());
    for i in 0..vertices_a.len() {
        assert_eq!(vertices_a[i], vertices_b[i]);
    }
    for j in 0..indices_a.len() {
        assert_eq!(indices_a[j], indices_b[j]);
    }
    assert_eq!(vertices_a, vertices_b);
    assert_eq!(indices_a, indices_b);
}

#[test]
fn every_index_is_below_24() {
    let (vertices, indices) = create_vertices();
    for index in indices.iter() {
        assert!(*index <= 23);
        assert!((*index as usize) < vertices.len());
    }
}

#[test]
fn every_index_stays_in_its_face() {
    let (_, indices) = create_vertices();
    for (j, index) in indices.iter().enumerate() {
        assert_eq!(*index as usize / 4, j / 6);
    }
}

#[test]
fn triangle_normals_point_outward() {
    let (vertices, indices) = create_vertices();
    let baseline: [[i32; 3]; 6] =
        [[0, 0, 4], [0, 0, -4], [4, 0, 0], [-4, 0, 0], [0, 4, 0], [0, -4, 0]];
    let center = [0, 0, -1];
    for face in 0..FACES {
        for triangle in 0..2 {
            let first = 6 * face + 3 * triangle;
            let n = normal(&vertices, &indices, first);
            assert_eq!(n, baseline[face], "face {} triangle {}", face, triangle);
            let o = outward(face);
            assert_eq!(n, [4 * o[0], 4 * o[1], 4 * o[2]]);
            let corner = position(&vertices[indices[first] as usize]);
            assert!(dot(n, minus(corner, center)) > 0);
        }
    }
}

#[test]
fn front_face_normal_is_plus_z() {
    let (vertices, indices) = create_vertices();
    assert_eq!(normal(&vertices, &indices, 0), [0, 0, 4]);
    assert_eq!(normal(&vertices, &indices, 3), [0, 0, 4]);
}

#[test]
fn faces_lie_on_the_box() {
    let (vertices, _) = create_vertices();
    for (i, v) in vertices.iter().enumerate() {
        let p = position(v);
        assert!(p[0] == -1 || p[0] == 1);
        assert!(p[1] == -1 || p[1] == 1);
        assert!(p[2] == -2 || p[2] == 0);
        match i / 4 {
            0 => assert_eq!(p[2], 0),
            1 => assert_eq!(p[2], -2),
            2 => assert_eq!(p[0], 1),
            3 => assert_eq!(p[0], -1),
            4 => assert_eq!(p[1], 1),
            5 => assert_eq!(p[1], -1),
            _ => unreachable!(),
        }
        assert_eq!(dot(minus(p, [0, 0, -1]), outward(i / 4)), 1);
    }
}

#[test]
fn each_face_owns_four_distinct_corners() {
    let (vertices, _) = create_vertices();
    for face in 0..FACES {
        for a in 0..4 {
            for b in (a + 1)..4 {
                let va = &vertices[4 * face + a];
                let vb = &vertices[4 * face + b];
                assert_ne!(va.position(), vb.position());
                assert_ne!(va.tex_coords(), vb.tex_coords());
            }
        }
    }
}

#[test]
fn triangles_of_a_face_share_a_reversed_edge_and_use_all_corners() {
    let (_, indices) = create_vertices();
    for face in 0..FACES {
        let t = &indices[6 * face..6 * face + 6];
        let mut shared = 0;
        for e in 0..3 {
            for d in 0..3 {
                let first = (t[e], t[(e + 1) % 3]);
                let second = (t[3 + d], t[3 + (d + 1) % 3]);
                if first.0 == second.1 && first.1 == second.0 {
                    shared += 1;
                }
            }
        }
        assert_eq!(shared, 1, "face {}", face);
        for k in 0..4u16 {
            assert!(t.contains(&(4 * face as u16 + k)));
        }
    }
}

#[test]
fn texture_coordinates_are_zero_or_one() {
    let (vertices, _) = create_vertices();
    for v in vertices.iter() {
        let tc = v.tex_coords();
        for c in tc.iter() {
            assert!(*c == 0 || *c == 1);
            let widened = *c as f32;
            assert!(widened == 0.0 || widened == 1.0);
        }
    }
}

#[test]
fn texture_layer_follows_the_face() {
    let (vertices, _) = create_vertices();
    for (i, v) in vertices.iter().enumerate() {
        let expected = match i / 4 {
            0 | 1 | 2 | 3 => 0,
            4 => 1,
            5 => 2,
            _ => unreachable!(),
        };
        assert_eq!(v.tex_idx(), expected, "vertex {}", i);
    }
    assert_eq!(vertices[15].tex_idx(), 0);
    assert_eq!(vertices[16].tex_idx(), 1);
    assert_eq!(vertices[19].tex_idx(), 1);
    assert_eq!(vertices[20].tex_idx(), 2);
    assert_eq!(vertices[23].tex_idx(), 2);
}

#[test]
fn box_spans_the_stated_extent() {
    let (vertices, _) = create_vertices();
    let xs: Vec<i32> = vertices.iter().map(|v| position(v)[0]).collect();
    let ys: Vec<i32> = vertices.iter().map(|v| position(v)[1]).collect();
    let zs: Vec<i32> = vertices.iter().map(|v| position(v)[2]).collect();
    assert_eq!((*xs.iter().min().unwrap(), *xs.iter().max().unwrap()), (-1, 1));
    assert_eq!((*ys.iter().min().unwrap(), *ys.iter().max().unwrap()), (-1, 1));
    assert_eq!((*zs.iter().min().unwrap(), *zs.iter().max().unwrap()), (-2, 0));
}

#[test]
fn new_keeps_what_it_is_given() {
    let v = Vertex::new([3, -4, 5], [1, 0], 7);
    assert_eq!(v.position(), [3, -4, 5]);
    assert_eq!(v.tex_coords(), [1, 0]);
    assert_eq!(v.tex_idx(), 7);
}

#[test]
fn new_takes_the_extremes() {
    let v = Vertex::new([i8::MIN, i8::MAX, 0], [i8::MAX, i8::MIN], u32::MAX);
    assert_eq!(v.position(), [-128, 127, 0]);
    assert_eq!(v.tex_coords(), [127, -128]);
    assert_eq!(v.tex_idx(), u32::MAX);
}

#[test]
fn vertex_is_copied_and_compared_by_value() {
    let v = Vertex::new([1, 1, 0], [1, 0], 0);
    let w = v;
    assert_eq!(v, w);
    assert_ne!(v, Vertex::new([1, 1, 0], [1, 0], 1));
    assert_ne!(v, Vertex::new([1, 1, 0], [0, 0], 0));
    assert_ne!(v, Vertex::new([1, -1, 0], [1, 0], 0));
}
