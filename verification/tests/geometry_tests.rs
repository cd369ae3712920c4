use cube_engine::errors::EngineError;
use cube_engine::geometry::{buffer_creation_outcome, build_cube_geometry};

#[test]
fn mesh_has_the_fixed_sizes() {
    let g = build_cube_geometry();
    assert_eq!(g.positions.len(), 72);
    assert_eq!(g.colors.len(), 96);
    assert_eq!(g.indices.len(), 36);
}

#[test]
fn front_face_corners_are_in_order() {
    let g = build_cube_geometry();
    assert_eq!(&g.positions[0..12], &[-1, -1, 1, 1, -1, 1, 1, 1, 1, -1, 1, 1]);
}

#[test]
fn left_face_sits_on_negative_x() {
    let g = build_cube_geometry();
    // last face: every vertex has x == -1
    for v in 0..4 {
        assert_eq!(g.positions[60 + 3 * v], -1);
    }
}

#[test]
fn face_colors_are_broadcast_to_all_four_vertices() {
    let g = build_cube_geometry();
    for face in 0..6 {
        let first = &g.colors[face * 16..face * 16 + 4];
        for v in 1..4 {
            assert_eq!(&g.colors[face * 16 + v * 4..face * 16 + v * 4 + 4], first);
        }
    }
}

#[test]
fn face_colors_are_the_six_fixed_ones() {
    let g = build_cube_geometry();
    let expected: [[i32; 4]; 6] = [
        [1, 1, 1, 1], // front: white
        [1, 0, 0, 1], // back: red
        [0, 1, 0, 1], // top: green
        [0, 0, 1, 1], // bottom: blue
        [1, 1, 0, 1], // right: yellow
        [1, 0, 1, 1], // left: purple
    ];
    for face in 0..6 {
        assert_eq!(&g.colors[face * 16..face * 16 + 4], &expected[face]);
    }
}

#[test]
fn indices_triangulate_each_face() {
    let g = build_cube_geometry();
    for face in 0..6u16 {
        let b = 4 * face;
        let block = &g.indices[face as usize * 6..face as usize * 6 + 6];
        assert_eq!(block, &[b, b + 1, b + 2, b, b + 2, b + 3]);
    }
}

#[test]
fn all_indices_point_into_the_vertex_buffer() {
    let g = build_cube_geometry();
    for &ix in &g.indices {
        assert!(ix < 24);
    }
}

#[test]
fn buffer_allocation_reports_the_first_failure() {
    assert!(buffer_creation_outcome(true, true, true).is_ok());
    match buffer_creation_outcome(false, true, true) {
        Err(EngineError::BufferAllocation { detail }) => {
            assert_eq!(detail, "unable to create position buffer")
        }
        other => panic!("expected a buffer allocation error, got {:?}", other),
    }
    match buffer_creation_outcome(true, false, true) {
        Err(EngineError::BufferAllocation { detail }) => {
            assert_eq!(detail, "unable to create color buffer")
        }
        other => panic!("expected a buffer allocation error, got {:?}", other),
    }
    match buffer_creation_outcome(true, true, false) {
        Err(EngineError::BufferAllocation { detail }) => {
            assert_eq!(detail, "unable to create index buffer")
        }
        other => panic!("expected a buffer allocation error, got {:?}", other),
    }
}
