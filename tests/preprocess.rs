use bevy_stylized_wireframe::{
    barycentric_corner, barycentric_corners, ComputeBarycentric, Corner, MeshError, Topology,
    TriangleMesh, ATTRIBUTE_BARYCENTRIC,
};

const A: [Corner; 3] = [Corner::Z, Corner::Y, Corner::X];
const B: [Corner; 3] = [Corner::Y, Corner::Z, Corner::X];

fn corners_of<V>(mesh: &TriangleMesh<V>) -> Vec<Corner> {
    mesh.barycentric().clone().expect("barycentric attribute")
}

#[test]
fn single_triangle_gets_ordering_a() {
    let mut mesh =
        TriangleMesh::new(Topology::TriangleList, vec![10u32, 11, 12], Some(vec![0, 1, 2]))
            .unwrap();
    mesh.compute_barycentric();
    assert_eq!(mesh.vertex_count(), 3);
    assert_eq!(mesh.vertices(), &vec![10, 11, 12]);
    assert!(mesh.indices().is_none());
    let corners = corners_of(&mesh);
    assert_eq!(corners, vec![Corner::Z, Corner::Y, Corner::X]);
    let vectors: Vec<[u8; 3]> = corners.iter().map(|c| c.components()).collect();
    assert_eq!(vectors, vec![[0, 0, 1], [0, 1, 0], [1, 0, 0]]);
}

#[test]
fn quad_triangles_alternate_orderings() {
    let mut mesh = TriangleMesh::new(
        Topology::TriangleList,
        vec!['a', 'b', 'c', 'd'],
        Some(vec![0, 1, 2, 2, 3, 0]),
    )
    .unwrap();
    assert_eq!(mesh.triangle_count(), 2);
    mesh.compute_barycentric();
    assert_eq!(mesh.vertices(), &vec!['a', 'b', 'c', 'c', 'd', 'a']);
    let corners = corners_of(&mesh);
    assert_eq!(corners.len(), 6);
    assert_eq!(&corners[0..3], &A[..]);
    assert_eq!(&corners[3..6], &B[..]);
}

#[test]
fn every_triangle_carries_three_distinct_corners() {
    let indices: Vec<u32> = vec![0, 1, 2, 1, 2, 3, 3, 4, 0, 4, 2, 1, 0, 0, 0];
    let mut mesh = TriangleMesh::new(Topology::TriangleList, vec![0u8; 5], Some(indices)).unwrap();
    mesh.compute_barycentric();
    assert_eq!(mesh.vertex_count(), 15);
    let corners = corners_of(&mesh);
    for t in 0..5 {
        let mut tri = corners[3 * t..3 * t + 3].to_vec();
        assert!(tri[0] != tri[1] && tri[0] != tri[2] && tri[1] != tri[2]);
        tri.sort_by_key(|c| c.components());
        assert_eq!(tri, vec![Corner::Z, Corner::Y, Corner::X]);
    }
}

#[test]
fn parity_selects_ordering() {
    for i in 0..30usize {
        let expected = if (i / 3) % 2 == 0 { A[i % 3] } else { B[i % 3] };
        assert_eq!(barycentric_corner(i), expected);
    }
    assert_eq!(barycentric_corners(9), vec![A[0], A[1], A[2], B[0], B[1], B[2], A[0], A[1], A[2]]);
    assert!(barycentric_corners(0).is_empty());
}

#[test]
fn expansion_of_unindexed_mesh_is_a_no_op() {
    let mut mesh =
        TriangleMesh::new(Topology::TriangleList, vec![1i32, 2, 3, 4, 5, 6], None).unwrap();
    mesh.duplicate_vertices();
    assert_eq!(mesh.vertices(), &vec![1, 2, 3, 4, 5, 6]);
    mesh.compute_barycentric();
    let first = corners_of(&mesh);
    mesh.compute_barycentric();
    assert_eq!(mesh.vertex_count(), 6);
    assert_eq!(mesh.vertices(), &vec![1, 2, 3, 4, 5, 6]);
    assert_eq!(corners_of(&mesh), first);
}

#[test]
fn duplicate_vertices_follows_indices() {
    let mut mesh =
        TriangleMesh::new(Topology::TriangleList, vec![7u16, 8], Some(vec![1, 1, 0])).unwrap();
    assert!(mesh.barycentric().is_none());
    mesh.duplicate_vertices();
    assert_eq!(mesh.vertices(), &vec![8, 8, 7]);
    assert!(mesh.indices().is_none());
    assert!(mesh.barycentric().is_none());
}

#[test]
fn empty_mesh_has_no_corners() {
    let mut mesh = TriangleMesh::<u8>::new(Topology::TriangleList, vec![], Some(vec![])).unwrap();
    mesh.compute_barycentric();
    assert_eq!(mesh.vertex_count(), 0);
    assert_eq!(corners_of(&mesh), Vec::<Corner>::new());
}

#[test]
fn mesh_errors() {
    assert_eq!(
        TriangleMesh::new(Topology::LineList, vec![0u8; 3], None).err(),
        Some(MeshError::NotTriangleList)
    );
    assert_eq!(
        TriangleMesh::new(Topology::TriangleStrip, vec![0u8; 3], Some(vec![0, 1, 9])).err(),
        Some(MeshError::NotTriangleList)
    );
    assert_eq!(
        TriangleMesh::new(Topology::TriangleList, vec![0u8; 3], Some(vec![0, 1, 3])).err(),
        Some(MeshError::IndexOutOfRange)
    );
    assert_eq!(
        TriangleMesh::new(Topology::TriangleList, vec![0u8; 3], Some(vec![0, 1])).err(),
        Some(MeshError::IncompleteTriangle)
    );
    assert_eq!(
        TriangleMesh::new(Topology::TriangleList, vec![0u8; 4], None).err(),
        Some(MeshError::IncompleteTriangle)
    );
}

#[test]
fn attribute_name() {
    assert_eq!(ATTRIBUTE_BARYCENTRIC, "Barycentric_Position");
}
