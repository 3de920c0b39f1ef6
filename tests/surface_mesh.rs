use rigid_sim::surface_mesh::{SurfaceMesh, Triangle, TriangleIndices};

type P = [f64; 3];

fn midpoint(p: P, q: P) -> P {
    [(p[0] + q[0]) / 2.0, (p[1] + q[1]) / 2.0, (p[2] + q[2]) / 2.0]
}

#[test]
fn from_indices_rejects_out_of_range_index() {
    let vertices: Vec<P> = vec![[0.0, 0.0, 0.0], [1.0, 0.0, 0.0]];
    let indices = vec![TriangleIndices::new(0, 1, 2)];
    assert!(SurfaceMesh::from_indices(vertices, indices).is_none());
}

#[test]
fn surface_mesh_replicate_vertices_on_empty_mesh() {
    let mesh: SurfaceMesh<P> = SurfaceMesh::from_indices(Vec::new(), Vec::new()).unwrap();
    let replicated = mesh.replicate_vertices();

    assert!(replicated.vertices().is_empty());
    assert!(replicated.triangle_indices().is_empty());
}

#[test]
fn surface_mesh_replicate_vertices_on_single_triangle() {
    let a = [0.0, 0.0, 0.0];
    let b = [0.0, 1.0, 0.0];
    let c = [0.0, 0.0, 1.0];

    let vertices = vec![a, b, c];
    let indices = vec![TriangleIndices::new(0, 1, 2)];
    let mesh = SurfaceMesh::from_indices(vertices, indices).unwrap();

    let replicated = mesh.replicate_vertices();

    assert_eq!(mesh, replicated);
}

#[test]
fn surface_mesh_replicate_vertices_on_two_triangles() {
    let a = [0.0, 0.0, 0.0];
    let b = [0.0, 1.0, 0.0];
    let c = [1.0, 0.0, 0.0];
    let d = [1.0, 1.0, 0.0];

    let vertices = vec![a, b, c, d];
    let indices = vec![TriangleIndices::new(0, 1, 2), TriangleIndices::new(1, 2, 3)];
    let mesh = SurfaceMesh::from_indices(vertices, indices).unwrap();

    let expected_vertices = vec![a, b, c, b, c, d];
    let expected_indices = vec![TriangleIndices::new(0, 1, 2), TriangleIndices::new(3, 4, 5)];
    let expected_mesh = SurfaceMesh::from_indices(expected_vertices, expected_indices).unwrap();

    let replicated = mesh.replicate_vertices();

    assert_eq!(expected_mesh, replicated);
}

#[test]
fn util_replicate_vertices_on_empty_mesh() {
    let mesh: SurfaceMesh<[f32; 3]> = SurfaceMesh::from_indices(Vec::new(), Vec::new()).unwrap();
    let replicated = mesh.replicate_vertices();

    assert!(replicated.vertices().is_empty());
    assert!(replicated.triangles().is_empty());
}

#[test]
fn subdivide_once_on_empty_mesh() {
    let mesh: SurfaceMesh<P> = SurfaceMesh::from_indices(Vec::new(), Vec::new()).unwrap();
    let subdivided = mesh.subdivide_once(&midpoint);

    assert!(subdivided.vertices().is_empty());
    assert!(subdivided.triangle_indices().is_empty());
}

#[test]
fn subdivide_once_on_single_triangle() {
    let a = [0.0, 0.0, 0.0];
    let b = [0.0, 1.0, 0.0];
    let c = [0.0, 0.0, 1.0];

    let vertices = vec![a, b, c];
    let indices = vec![TriangleIndices::new(0, 1, 2)];
    let mesh = SurfaceMesh::from_indices(vertices, indices).unwrap();

    let subdivided = mesh.subdivide_once(&midpoint);
    let triangles = subdivided.triangles();

    let ab = [0.0, 0.5, 0.0];
    let ac = [0.0, 0.0, 0.5];
    let bc = [0.0, 0.5, 0.5];

    let expected_triangles = vec![
        Triangle { a: a, b: ab, c: ac },
        Triangle { a: b, b: bc, c: ab },
        Triangle { a: c, b: ac, c: bc },
        Triangle { a: ab, b: bc, c: ac },
    ];

    assert_eq!(4, triangles.len());
    assert_eq!(expected_triangles[0], triangles[0]);
    assert_eq!(expected_triangles[1], triangles[1]);
    assert_eq!(expected_triangles[2], triangles[2]);
    assert_eq!(expected_triangles[3], triangles[3]);
}

#[test]
fn subdivide_once_shares_midpoints_of_shared_edges() {
    let vertices: Vec<P> = vec![[0.0, 0.0, 0.0], [0.0, 1.0, 0.0], [1.0, 0.0, 0.0], [1.0, 1.0, 0.0]];
    let indices = vec![TriangleIndices::new(0, 1, 2), TriangleIndices::new(2, 1, 3)];
    let mesh = SurfaceMesh::from_indices(vertices, indices).unwrap();

    let subdivided = mesh.subdivide_once(&midpoint);

    // Five distinct edges: (0,1), (0,2), (1,2), then (2,3), (1,3).
    assert_eq!(subdivided.num_vertices(), 4 + 5);
    assert_eq!(subdivided.vertices()[4], [0.0, 0.5, 0.0]);
    assert_eq!(subdivided.vertices()[6], [0.5, 0.5, 0.0]);
    assert_eq!(subdivided.vertices()[7], [1.0, 0.5, 0.0]);
    assert_eq!(subdivided.vertices()[8], [0.5, 1.0, 0.0]);
    assert_eq!(subdivided.num_triangles(), 8);
    // Second triangle (2, 1, 3): ab = (2,1) -> 6, ac = (2,3) -> 7, bc = (1,3) -> 8.
    assert_eq!(subdivided.triangle_indices()[4], TriangleIndices::new(2, 6, 7));
    assert_eq!(subdivided.triangle_indices()[5], TriangleIndices::new(1, 8, 6));
    assert_eq!(subdivided.triangle_indices()[6], TriangleIndices::new(3, 7, 8));
    assert_eq!(subdivided.triangle_indices()[7], TriangleIndices::new(6, 8, 7));
}

#[test]
fn subdivide_twice_multiplies_triangles_by_sixteen() {
    let vertices: Vec<P> = vec![[0.0, 0.0, 0.0], [0.0, 1.0, 0.0], [0.0, 0.0, 1.0]];
    let indices = vec![TriangleIndices::new(0, 1, 2)];
    let mesh = SurfaceMesh::from_indices(vertices, indices).unwrap();

    let twice = mesh.subdivide(2, &midpoint);
    assert_eq!(twice.num_triangles(), 16);
    assert_eq!(twice.num_vertices(), 15);
    assert_eq!(mesh.subdivide(0, &midpoint), mesh);
    assert_eq!(mesh.subdivide(1, &midpoint), mesh.subdivide_once(&midpoint));
}

#[test]
fn util_replicate_vertices_on_single_triangle() {
    let a = [0.0f32, 0.0, 0.0];
    let b = [0.0f32, 1.0, 0.0];
    let c = [0.0f32, 0.0, 1.0];

    let vertices = vec![a, b, c];
    let indices = vec![TriangleIndices::new(0, 1, 2)];
    let mesh = SurfaceMesh::from_indices(vertices, indices).unwrap();

    let replicated = mesh.replicate_vertices();

    assert_eq!(mesh, replicated);
}

#[test]
fn util_replicate_vertices_on_two_triangles() {
    let a = [0.0f32, 0.0, 0.0];
    let b = [0.0f32, 1.0, 0.0];
    let c = [1.0f32, 0.0, 0.0];
    let d = [1.0f32, 1.0, 0.0];

    let vertices = vec![a, b, c, d];
    let indices = vec![TriangleIndices::new(0, 1, 2), TriangleIndices::new(1, 2, 3)];
    let mesh = SurfaceMesh::from_indices(vertices, indices).unwrap();

    let expected_vertices = vec![a, b, c, b, c, d];
    let expected_indices = vec![TriangleIndices::new(0, 1, 2), TriangleIndices::new(3, 4, 5)];
    let expected_mesh = SurfaceMesh::from_indices(expected_vertices, expected_indices).unwrap();

    let replicated = mesh.replicate_vertices();

    assert_eq!(expected_mesh, replicated);
}
