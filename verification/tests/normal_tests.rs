use cg_rust::common_properties::NormalMap;
use cg_rust::mesh_normal_calculation::corner_neighbors;
use cg_rust::mesh_normal_calculation::newell_sum;
use cg_rust::mesh_normal_calculation::pseudo_normal_corner_plans;
use cg_rust::mesh_normal_calculation::vertex_corner_plan;
use cg_rust::property_map::PropertyType;
use cg_rust::triangle_vertex_mesh::MeshComponent;
use cg_rust::triangle_vertex_mesh::TriangleVertexMesh;
use cg_rust::vector::Vec3l;

type V3 = (f64, f64, f64);

fn sub(a: V3, b: V3) -> V3 {
    (a.0 - b.0, a.1 - b.1, a.2 - b.2)
}

fn dot(a: V3, b: V3) -> f64 {
    a.0 * b.0 + a.1 * b.1 + a.2 * b.2
}

fn cross(a: V3, b: V3) -> V3 {
    (
        a.1 * b.2 - a.2 * b.1,
        a.2 * b.0 - a.0 * b.2,
        a.0 * b.1 - a.1 * b.0,
    )
}

fn normalize(v: V3) -> Option<V3> {
    let len = dot(v, v).sqrt();
    if len == 0.0 {
        None
    } else {
        Some((v.0 / len, v.1 / len, v.2 / len))
    }
}

/// The angle between two vectors, derived from their dot and wedge
/// products.
fn angle(a: V3, b: V3) -> f64 {
    let w = cross(a, b);
    dot(w, w).sqrt().atan2(dot(a, b))
}

/// A Newell-style face normal over floating-point vertices.
fn face_normal(vs: &[V3]) -> Option<V3> {
    if vs.len() < 3 {
        return None;
    }
    let mut sum = (0.0, 0.0, 0.0);
    for i in 0..vs.len() {
        let cur = vs[i];
        let next = vs[(i + 1) % vs.len()];
        let d = sub(cur, next);
        let a = (cur.0 + next.0, cur.1 + next.1, cur.2 + next.2);
        sum = (sum.0 + d.1 * a.2, sum.1 + d.2 * a.0, sum.2 + d.0 * a.1);
    }
    normalize(sum)
}

/// Angle-weighted pseudo vertex normals over the verified topology: the
/// incidence map and per-face corner plans come from the kernel, the
/// floating-point reduction is done here.
fn pseudo_vertex_normals(mesh: &TriangleVertexMesh<V3>) -> Vec<Option<V3>> {
    let vertices = mesh.get_vertices();
    let mut out: Vec<Option<V3>> = vec![None; vertices.len()];

    for (v, plan) in pseudo_normal_corner_plans(mesh) {
        let mut weighted: Vec<(f64, V3)> = Vec::with_capacity(plan.len());
        let mut angle_sum = 0.0;
        for &(f, prev, next) in plan.iter() {
            let (a, b, c) = mesh.get_face(f);
            let face_vertices = [vertices[a], vertices[b], vertices[c]];
            let prev_edge = sub(vertices[v], vertices[prev]);
            let next_edge = sub(vertices[next], vertices[v]);
            let ang = angle(prev_edge, next_edge);
            let normal = face_normal(&face_vertices).unwrap_or((0.0, 0.0, 0.0));
            weighted.push((ang, normal));
            angle_sum += ang;
        }

        let mut vertex_normal = (0.0, 0.0, 0.0);
        for (ang, normal) in weighted {
            let w = ang / angle_sum;
            vertex_normal = (
                vertex_normal.0 + normal.0 * w,
                vertex_normal.1 + normal.1 * w,
                vertex_normal.2 + normal.2 * w,
            );
        }
        out[v] = Some(normalize(vertex_normal).unwrap_or((0.0, 0.0, 0.0)));
    }
    out
}

fn unit_square() -> TriangleVertexMesh<V3> {
    let vertices = vec![
        (0.0, 0.0, 0.0),
        (1.0, 0.0, 0.0),
        (1.0, 1.0, 0.0),
        (0.0, 1.0, 0.0),
    ];
    let indices = vec![0, 1, 2, 0, 2, 3];
    TriangleVertexMesh::from(vertices, indices).unwrap()
}

#[test]
fn test_create_mesh_normals() {
    let mut usquare = unit_square();

    let normals = pseudo_vertex_normals(&usquare);

    assert!(usquare.add_vertex_property(PropertyType::NORMAL));
    let map: &mut NormalMap<V3> = usquare.get_vertex_property(PropertyType::NORMAL).unwrap();
    for n in normals {
        map.push(n.unwrap());
    }
    assert_eq!(map.len(), 4);
}

#[test]
fn square_normals_are_unit_and_identical() {
    // Two coplanar triangles sharing the diagonal: every vertex's
    // angle-weighted normal is the plane's unit normal.
    let usquare = unit_square();
    let normals = pseudo_vertex_normals(&usquare);
    assert_eq!(normals.len(), 4);
    let first = normals[0].unwrap();
    for n in &normals {
        let n = n.unwrap();
        assert_eq!(n, first);
        let len = dot(n, n).sqrt();
        assert!((len - 1.0).abs() < 1e-12);
    }
    assert!((first.2 - 1.0).abs() < 1e-12);
    assert!(first.0.abs() < 1e-12 && first.1.abs() < 1e-12);
}

#[test]
fn newell_sum_of_ccw_triangle_points_up() {
    // The triangle (0,0,0), (2,0,0), (0,2,0) has area 2; the Newell sum
    // is twice the area along +z.
    let vs = vec![Vec3l::new(0, 0, 0), Vec3l::new(2, 0, 0), Vec3l::new(0, 2, 0)];
    assert_eq!(newell_sum(&vs), Some((0, 0, 4)));
}

#[test]
fn newell_sum_needs_three_vertices() {
    assert_eq!(newell_sum(&vec![]), None);
    assert_eq!(newell_sum(&vec![Vec3l::new(1, 2, 3)]), None);
    assert_eq!(
        newell_sum(&vec![Vec3l::new(1, 2, 3), Vec3l::new(4, 5, 6)]),
        None
    );
}

#[test]
fn newell_sum_of_degenerate_face_is_zero() {
    // Three collinear points enclose no area.
    let vs = vec![Vec3l::new(0, 0, 0), Vec3l::new(1, 1, 1), Vec3l::new(2, 2, 2)];
    assert_eq!(newell_sum(&vs), Some((0, 0, 0)));
}

#[test]
fn corner_neighbors_follow_winding() {
    let face = (5usize, 6usize, 7usize);
    assert_eq!(corner_neighbors(face, 5), (7, 6));
    assert_eq!(corner_neighbors(face, 6), (5, 7));
    assert_eq!(corner_neighbors(face, 7), (6, 5));
    // A vertex absent from the face falls back to itself.
    assert_eq!(corner_neighbors(face, 9), (9, 9));
    // With a duplicated corner, the last occurrence wins.
    assert_eq!(corner_neighbors((5, 5, 7), 5), (5, 7));
}

#[test]
fn corner_plan_of_shared_vertex() {
    let usquare = unit_square();
    let vf = usquare
        .make_incidence_map(MeshComponent::VERTEX, MeshComponent::FACE)
        .unwrap();
    let faces = vf.get(0).unwrap();
    let plan = vertex_corner_plan(&usquare, 0, faces);
    assert_eq!(plan, vec![(0, 2, 1), (1, 3, 2)]);
}

#[test]
fn corner_plans_cover_referenced_vertices() {
    let usquare = unit_square();
    let plans = pseudo_normal_corner_plans(&usquare);
    assert_eq!(plans.len(), 4);
    assert_eq!(plans[0], (0, vec![(0, 2, 1), (1, 3, 2)]));
    assert_eq!(plans[1], (1, vec![(0, 0, 2)]));
    assert_eq!(plans[2], (2, vec![(0, 1, 0), (1, 0, 3)]));
    assert_eq!(plans[3], (3, vec![(1, 2, 0)]));
}
