use telera::mesh::{vertex_layout, AttributeFormat, VertexAttributeDesc, as_u8_slice, buffer_vertices, quad_vertices, triangle_vertices, Vertex, VERTEX_SIZE};

fn v(x: f32, y: f32, z: f32, r: f32, g: f32, b: f32) -> Vertex {
    Vertex::from(x.to_bits(), y.to_bits(), z.to_bits(), r.to_bits(), g.to_bits(), b.to_bits())
}

#[test]
fn triangle_matches_floats() {
    assert_eq!(
        triangle_vertices(),
        vec![
            v(0.0, 0.5, 0.0, 1.0, 0.0, 0.0),
            v(-0.5, -0.5, 0.0, 0.0, 1.0, 0.0),
            v(0.5, -0.5, 0.0, 0.0, 0.0, 1.0),
        ]
    );
}

#[test]
fn quad_matches_floats() {
    assert_eq!(
        quad_vertices(),
        vec![
            v(-0.5, 0.5, 0.0, 1.0, 0.0, 0.0),
            v(-0.5, -0.5, 0.0, 0.0, 1.0, 0.0),
            v(0.5, 0.5, 0.0, 0.0, 0.0, 1.0),
            v(-0.5, -0.5, 0.0, 1.0, 0.0, 0.0),
            v(0.5, -0.5, 0.0, 0.0, 1.0, 0.0),
            v(0.5, 0.5, 0.0, 0.0, 0.0, 1.0),
        ]
    );
}

#[test]
fn new_vertex_is_zero() {
    assert_eq!(Vertex::new(), v(0.0, 0.0, 0.0, 0.0, 0.0, 0.0));
}

#[test]
fn bytes_are_native_floats() {
    let tri = triangle_vertices();
    let bytes = as_u8_slice(&tri);
    assert_eq!(bytes.len(), 3 * VERTEX_SIZE);
    let mut expected = Vec::new();
    for f in [0.0f32, 0.5, 0.0, 1.0, 0.0, 0.0, -0.5, -0.5, 0.0, 0.0, 1.0, 0.0, 0.5, -0.5, 0.0, 0.0, 0.0, 1.0] {
        expected.extend_from_slice(&f.to_ne_bytes());
    }
    assert_eq!(bytes, expected);
}

#[test]
fn fresh_buffer() {
    let vertices = buffer_vertices(4);
    assert_eq!(vertices.len(), 12);
    assert!(vertices.iter().all(|x| *x == Vertex::new()));
    let bytes = as_u8_slice(&vertices);
    assert_eq!(bytes.len(), 12 * 24);
    assert!(bytes.iter().all(|b| *b == 0));
    assert!(buffer_vertices(0).is_empty());
    assert!(as_u8_slice(&Vec::new()).is_empty());
}

#[test]
fn layout_of_vertices() {
    let layout = vertex_layout();
    assert_eq!(layout.array_stride, 24);
    assert_eq!(
        layout.attributes,
        vec![
            VertexAttributeDesc { offset: 0, shader_location: 0, format: AttributeFormat::Float32x3 },
            VertexAttributeDesc { offset: 12, shader_location: 1, format: AttributeFormat::Float32x3 },
        ]
    );
}
