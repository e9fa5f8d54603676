use cg_rust::triangle_vertex_mesh::MeshComponent;
use cg_rust::triangle_vertex_mesh::TriangleVertexMesh;
use cg_rust::vector::Vec3l;

fn cube() -> TriangleVertexMesh<Vec3l> {
    let vertices = vec![
        Vec3l::new(0, 0, 0),
        Vec3l::new(1, 0, 0),
        Vec3l::new(1, 1, 0),
        Vec3l::new(0, 1, 0),
        Vec3l::new(0, 0, 1),
        Vec3l::new(1, 0, 1),
        Vec3l::new(1, 1, 1),
        Vec3l::new(0, 1, 1),
    ];
    let indices = vec![
        0, 3, 2, 0, 2, 1, // bottom
        4, 5, 6, 4, 6, 7, // top
        0, 1, 5, 0, 5, 4, // front
        2, 3, 7, 2, 7, 6, // back
        1, 2, 6, 1, 6, 5, // right
        0, 4, 7, 0, 7, 3, // left
    ];
    TriangleVertexMesh::from(vertices, indices).unwrap()
}

#[test]
fn from_rejects_malformed_buffers() {
    // Length not a multiple of three.
    let r = TriangleVertexMesh::from(vec![Vec3l::new(0, 0, 0)], vec![0, 0]);
    assert!(r.is_none());
    // An index naming no vertex.
    let r = TriangleVertexMesh::from(vec![Vec3l::new(0, 0, 0)], vec![0, 0, 1]);
    assert!(r.is_none());
    // A well-formed pair passes.
    let r = TriangleVertexMesh::from(vec![Vec3l::new(0, 0, 0)], vec![0, 0, 0]);
    assert!(r.is_some());
    // An empty mesh is well-formed.
    let r = TriangleVertexMesh::<Vec3l>::from(Vec::new(), Vec::new());
    assert!(r.is_some());
}

#[test]
fn buffers_round_trip() {
    let mesh = cube();
    assert_eq!(mesh.get_vertices().len(), 8);
    assert_eq!(mesh.get_indices().len(), 36);
    assert_eq!(mesh.num_faces(), 12);
    assert_eq!(mesh.get_face(0), (0, 3, 2));
    assert_eq!(mesh.get_face(11), (0, 7, 3));
}

#[test]
fn cube_vertex_incidence_counts() {
    // Every one of the 8 vertices is a key. The 12 triangles contribute
    // 36 corner slots, so the per-vertex face counts cannot all be equal;
    // for this triangulation they are fixed per vertex.
    let mesh = cube();

    let vv = mesh
        .make_incidence_map(MeshComponent::VERTEX, MeshComponent::VERTEX)
        .unwrap();
    assert_eq!(vv.key_count(), 8);
    let expected_neighbor_counts = [6usize, 4, 5, 3, 4, 4, 5, 5];
    for v in 0..8usize {
        assert!(vv.contains_key(v));
        let neighbors = vv.get(v).unwrap();
        assert_eq!(
            neighbors.len(),
            expected_neighbor_counts[v],
            "neighbors of vertex {}",
            v
        );
        // No duplicates: the list length is the set's cardinality.
        for i in 0..neighbors.len() {
            for j in 0..i {
                assert_ne!(neighbors[i], neighbors[j]);
            }
        }
    }
    assert!(!vv.contains_key(8));

    let vf = mesh
        .make_incidence_map(MeshComponent::VERTEX, MeshComponent::FACE)
        .unwrap();
    assert_eq!(vf.key_count(), 8);
    let expected_face_counts = [6usize, 4, 5, 3, 4, 4, 5, 5];
    let mut total = 0;
    for v in 0..8usize {
        assert!(vf.contains_key(v));
        let faces = vf.get(v).unwrap();
        assert_eq!(faces.len(), expected_face_counts[v], "faces of vertex {}", v);
        total += faces.len();
    }
    // Each of the 12 triangles is counted once per corner.
    assert_eq!(total, 36);
}

#[test]
fn vertex_vertex_neighbors_of_one_triangle() {
    let vertices = vec![Vec3l::new(0, 0, 0), Vec3l::new(1, 0, 0), Vec3l::new(0, 1, 0)];
    let mesh = TriangleVertexMesh::from(vertices, vec![0, 1, 2]).unwrap();
    let vv = mesh
        .make_incidence_map(MeshComponent::VERTEX, MeshComponent::VERTEX)
        .unwrap();
    let mut n0 = vv.get(0).unwrap().clone();
    n0.sort();
    assert_eq!(n0, vec![1, 2]);
    let mut n1 = vv.get(1).unwrap().clone();
    n1.sort();
    assert_eq!(n1, vec![0, 2]);
    let vf = mesh
        .make_incidence_map(MeshComponent::VERTEX, MeshComponent::FACE)
        .unwrap();
    assert_eq!(vf.get(0).unwrap(), &vec![0]);
}

#[test]
fn unreferenced_vertex_has_no_key() {
    // Vertex 3 exists in the vertex buffer but no triangle names it.
    let vertices = vec![
        Vec3l::new(0, 0, 0),
        Vec3l::new(1, 0, 0),
        Vec3l::new(0, 1, 0),
        Vec3l::new(5, 5, 5),
    ];
    let mesh = TriangleVertexMesh::from(vertices, vec![0, 1, 2]).unwrap();
    let vv = mesh
        .make_incidence_map(MeshComponent::VERTEX, MeshComponent::VERTEX)
        .unwrap();
    assert!(!vv.contains_key(3));
    assert!(vv.get(3).is_none());
}

#[test]
fn unsupported_incidence_combinations_fail_loudly() {
    let mesh = cube();
    for (origin, incident) in [
        (MeshComponent::EDGE, MeshComponent::VERTEX),
        (MeshComponent::EDGE, MeshComponent::EDGE),
        (MeshComponent::EDGE, MeshComponent::FACE),
        (MeshComponent::FACE, MeshComponent::VERTEX),
        (MeshComponent::FACE, MeshComponent::EDGE),
        (MeshComponent::FACE, MeshComponent::FACE),
        (MeshComponent::VERTEX, MeshComponent::EDGE),
    ] {
        assert!(mesh.make_incidence_map(origin, incident).is_err());
    }
}

#[test]
fn degenerate_triangle_with_repeated_corner() {
    // The triangle (0, 0, 1) names vertex 0 twice: vertex 0 becomes its
    // own neighbor through the repeated corner, and each key still holds
    // every neighbor once.
    let vertices = vec![Vec3l::new(0, 0, 0), Vec3l::new(1, 0, 0)];
    let mesh = TriangleVertexMesh::from(vertices, vec![0, 0, 1]).unwrap();
    let vv = mesh
        .make_incidence_map(MeshComponent::VERTEX, MeshComponent::VERTEX)
        .unwrap();
    let mut n0 = vv.get(0).unwrap().clone();
    n0.sort();
    assert_eq!(n0, vec![0, 1]);
    assert_eq!(vv.get(1).unwrap(), &vec![0]);
}
