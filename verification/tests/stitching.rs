use bevy_pgc_splines::error::ExtrudeError;
use bevy_pgc_splines::frame::subdivisions;
use bevy_pgc_splines::stitch::stitch_rings;

#[test]
fn two_triangles_stitch_two_rings_of_three() {
    let indices = stitch_rings(2, 3).unwrap();
    assert_eq!(
        indices,
        vec![0, 3, 4, 0, 4, 1, 1, 4, 5, 1, 5, 2, 2, 5, 3, 2, 3, 0]
    );
}

#[test]
fn ribbon_of_two_vertices_is_stitched_on_both_sides() {
    let indices = stitch_rings(3, 2).unwrap();
    assert_eq!(
        indices,
        vec![
            0, 2, 3, 0, 3, 1, 1, 3, 2, 1, 2, 0, 2, 4, 5, 2, 5, 3, 3, 5, 4, 3, 4, 2
        ]
    );
}

#[test]
fn index_count_is_six_for_each_edge_between_neighbours() {
    for ring_count in 2..7usize {
        for stride in 2..9usize {
            let indices = stitch_rings(ring_count, stride).unwrap();
            assert_eq!(indices.len(), (ring_count - 1) * stride * 2 * 3);
        }
    }
}

#[test]
fn every_index_names_a_vertex() {
    for ring_count in 2..7usize {
        for stride in 2..9usize {
            let indices = stitch_rings(ring_count, stride).unwrap();
            let vertices = (ring_count * stride) as u32;
            assert!(indices.iter().all(|&i| i < vertices));
        }
    }
}

#[test]
fn last_edge_of_each_ring_closes_the_tube() {
    let stride = 5usize;
    let ring_count = 4usize;
    let indices = stitch_rings(ring_count, stride).unwrap();
    for ring in 0..ring_count - 1 {
        let base = (ring * stride + stride - 1) * 6;
        let last = (ring * stride + stride - 1) as u32;
        let first = (ring * stride) as u32;
        let far_last = ((ring + 1) * stride + stride - 1) as u32;
        let far_first = ((ring + 1) * stride) as u32;
        assert_eq!(
            &indices[base..base + 6],
            &[last, far_last, far_first, last, far_first, first]
        );
    }
}

#[test]
fn each_quad_follows_the_winding() {
    let stride = 4usize;
    let ring_count = 3usize;
    let indices = stitch_rings(ring_count, stride).unwrap();
    for ring in 0..ring_count - 1 {
        for local in 0..stride {
            let next = (local + 1) % stride;
            let base = (ring * stride + local) * 6;
            let a = (ring * stride + local) as u32;
            let b = ((ring + 1) * stride + local) as u32;
            let c = ((ring + 1) * stride + next) as u32;
            let d = (ring * stride + next) as u32;
            assert_eq!(&indices[base..base + 6], &[a, b, c, a, c, d]);
        }
    }
}

#[test]
fn fewer_than_two_rings_are_refused() {
    assert_eq!(stitch_rings(0, 4), Err(ExtrudeError::InvalidRingCount));
    assert_eq!(stitch_rings(1, 4), Err(ExtrudeError::InvalidRingCount));
    assert_eq!(stitch_rings(1, 0), Err(ExtrudeError::InvalidRingCount));
}

#[test]
fn fewer_than_two_vertices_are_refused() {
    assert_eq!(stitch_rings(2, 0), Err(ExtrudeError::DegenerateCrossSection));
    assert_eq!(stitch_rings(2, 1), Err(ExtrudeError::DegenerateCrossSection));
}

#[test]
fn more_vertices_than_an_index_can_name_are_refused() {
    assert_eq!(stitch_rings(65536, 65536), Err(ExtrudeError::TooManyVertices));
    assert_eq!(stitch_rings(usize::MAX, 2), Err(ExtrudeError::TooManyVertices));
    assert_eq!(stitch_rings(2, usize::MAX), Err(ExtrudeError::TooManyVertices));
}

#[test]
fn subdivisions_are_one_less_than_rings() {
    assert_eq!(subdivisions(2), Ok(1));
    assert_eq!(subdivisions(3), Ok(2));
    assert_eq!(subdivisions(16), Ok(15));
    assert_eq!(subdivisions(usize::MAX), Ok(usize::MAX - 1));
}

#[test]
fn no_subdivisions_for_fewer_than_two_rings() {
    assert_eq!(subdivisions(0), Err(ExtrudeError::InvalidRingCount));
    assert_eq!(subdivisions(1), Err(ExtrudeError::InvalidRingCount));
}
