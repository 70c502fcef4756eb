use box_mesh::layout::{
    VertexAttribute, VertexBufferLayout, VertexFormat, VertexStepMode, COMPONENT_SIZE,
};
use box_mesh::vertex::{Vertex, VERTEX_STRIDE};

#[test]
fn stride_is_24_bytes() {
    let layout = Vertex::desc();
    assert_eq!(layout.array_stride, 24);
    assert_eq!(VERTEX_STRIDE, 24);
}

#[test]
fn layout_steps_per_vertex() {
    let layout = Vertex::desc();
    assert_eq!(layout.step_mode, VertexStepMode::Vertex);
    assert_ne!(layout.step_mode, VertexStepMode::Instance);
}

#[test]
fn attributes_match_the_table() {
    let layout = Vertex::desc();
    let expected = vec![
        VertexAttribute { format: VertexFormat::Float32x3, offset: 0, shader_location: 0 },
        VertexAttribute { format: VertexFormat::Float32x2, offset: 12, shader_location: 1 },
        VertexAttribute { format: VertexFormat::Sint32, offset: 20, shader_location: 2 },
    ];
    assert_eq!(layout.attributes, expected);
}

#[test]
fn field_offsets_are_0_12_20() {
    let layout = Vertex::desc();
    let offsets: Vec<u64> = layout.attributes.iter().map(|a| a.offset).collect();
    assert_eq!(offsets, vec![0, 12, 20]);
}

#[test]
fn format_sizes() {
    assert_eq!(COMPONENT_SIZE, 4);
    assert_eq!(VertexFormat::Float32x3.size(), 12);
    assert_eq!(VertexFormat::Float32x2.size(), 8);
    assert_eq!(VertexFormat::Sint32.size(), 4);
}

#[test]
fn record_has_no_padding() {
    let layout = Vertex::desc();
    let mut end = 0;
    for (slot, attribute) in layout.attributes.iter().enumerate() {
        assert_eq!(attribute.offset, end);
        assert_eq!(attribute.shader_location as usize, slot);
        end = attribute.offset + attribute.format.size();
    }
    assert_eq!(end, layout.array_stride);
    let total: u64 = layout.attributes.iter().map(|a| a.format.size()).sum();
    assert_eq!(total, 3 * 4 + 2 * 4 + 4);
}

#[test]
fn desc_gives_the_same_layout_every_time() {
    let first: VertexBufferLayout = Vertex::desc();
    let second = Vertex::desc();
    assert_eq!(first, second);
    assert_eq!(first.clone(), second);
}
