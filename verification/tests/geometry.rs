use pixel_canvas::geometry::{
    index_bytes, indices, vertices, InputStepMode, Vertex, VertexAttribute, VertexFormat,
};

fn winding(a: &Vertex, b: &Vertex, c: &Vertex) -> i32 {
    let (ax, ay) = (a.position[0] as i32, a.position[1] as i32);
    let (bx, by) = (b.position[0] as i32, b.position[1] as i32);
    let (cx, cy) = (c.position[0] as i32, c.position[1] as i32);
    (bx - ax) * (cy - ay) - (by - ay) * (cx - ax)
}

#[test]
fn quad_has_the_four_corners_of_the_viewport() {
    let vs = vertices();
    assert_eq!(vs[0], Vertex { position: [-1, 1, 0], tex_coords: [0, 0] });
    assert_eq!(vs[1], Vertex { position: [1, 1, 0], tex_coords: [1, 0] });
    assert_eq!(vs[2], Vertex { position: [-1, -1, 0], tex_coords: [0, 1] });
    assert_eq!(vs[3], Vertex { position: [1, -1, 0], tex_coords: [1, 1] });
}

#[test]
fn quad_has_six_indices_in_two_triangles() {
    assert_eq!(indices(), [0u16, 2, 3, 0, 3, 1]);
}

#[test]
fn every_index_names_a_vertex() {
    let vs = vertices();
    for i in indices().iter() {
        assert!((*i as usize) < vs.len());
    }
}

#[test]
fn both_triangles_run_counter_clockwise() {
    let vs = vertices();
    let is = indices();
    for t in 0..2 {
        let a = &vs[is[3 * t] as usize];
        let b = &vs[is[3 * t + 1] as usize];
        let c = &vs[is[3 * t + 2] as usize];
        assert_eq!(winding(a, b, c), 4);
    }
}

#[test]
fn texture_corners_follow_the_viewport_corners() {
    for v in vertices().iter() {
        assert_eq!(2 * v.tex_coords[0] as i32, v.position[0] as i32 + 1);
        assert_eq!(2 * v.tex_coords[1] as i32, 1 - v.position[1] as i32);
        assert_eq!(v.position[2], 0);
    }
}

#[test]
fn index_bytes_hold_the_indices_in_machine_order() {
    let mut expected: Vec<u8> = Vec::new();
    for i in [0u16, 2, 3, 0, 3, 1].iter() {
        expected.extend_from_slice(&i.to_ne_bytes());
    }
    let bytes = index_bytes();
    assert_eq!(bytes.len(), 12);
    assert_eq!(bytes, expected);
}

#[test]
fn index_bytes_are_two_for_each_index() {
    assert_eq!(index_bytes().len(), 2 * indices().len());
}

#[test]
fn format_sizes() {
    assert_eq!(VertexFormat::Float2.size(), 8);
    assert_eq!(VertexFormat::Float3.size(), 12);
}

#[test]
fn vertex_layout_is_tightly_packed() {
    let layout = Vertex::desc();
    assert_eq!(layout.array_stride, 20);
    assert_eq!(layout.step_mode, InputStepMode::Vertex);
    assert_eq!(
        layout.attributes[0],
        VertexAttribute { format: VertexFormat::Float3, offset: 0, shader_location: 0 }
    );
    assert_eq!(
        layout.attributes[1],
        VertexAttribute { format: VertexFormat::Float2, offset: 12, shader_location: 1 }
    );
    let end_of_first = layout.attributes[0].offset + layout.attributes[0].format.size();
    assert_eq!(layout.attributes[1].offset, end_of_first);
    let end_of_second = layout.attributes[1].offset + layout.attributes[1].format.size();
    assert_eq!(layout.array_stride, end_of_second);
}
