//! The index-level scaffolding of vertex-normal computation.
//!
//! A vertex's pseudo-normal is an angle-weighted average of the normals of
//! its incident faces. Everything about that computation that is a matter
//! of indices — which faces touch a vertex, which corner the vertex
//! occupies in each face, which vertices precede and follow it in the
//! face's winding — is verified here. The kernel also proves the
//! Newell-style summation that yields a face's (unnormalized) normal for
//! integer vertices. Normalization and angle weighting divide and take
//! square roots, which leave the integer domain; they belong to the
//! floating-point layer outside the verified kernel, driven by the plans
//! computed here.

use vstd::prelude::*;

use crate::triangle_vertex_mesh::MeshComponent;
use crate::triangle_vertex_mesh::TriangleVertexMesh;
use crate::triangle_vertex_mesh::spec_referenced;
use crate::triangle_vertex_mesh::spec_vertex_faces;
use crate::vector::Vec3l;
use crate::vector::lemma_mul_bound;

verus! {

/// The largest coordinate magnitude accepted by the Newell summation: it
/// keeps every accumulated term within the 128-bit accumulator for any
/// number of vertices.
pub const NEWELL_COORD_LIMIT: i64 = 0x4000_0000;

/// Whether all coordinates are small enough for the Newell summation.
pub open spec fn newell_in_range(v: Vec3l) -> bool {
    &&& -NEWELL_COORD_LIMIT <= v.x <= NEWELL_COORD_LIMIT
    &&& -NEWELL_COORD_LIMIT <= v.y <= NEWELL_COORD_LIMIT
    &&& -NEWELL_COORD_LIMIT <= v.z <= NEWELL_COORD_LIMIT
}

/// The x component of one Newell term for the edge from `p` to `q`.
pub open spec fn newell_term_x(p: Vec3l, q: Vec3l) -> int {
    (p.y - q.y) * (p.z + q.z)
}

/// The y component of one Newell term for the edge from `p` to `q`.
pub open spec fn newell_term_y(p: Vec3l, q: Vec3l) -> int {
    (p.z - q.z) * (p.x + q.x)
}

/// The z component of one Newell term for the edge from `p` to `q`.
pub open spec fn newell_term_z(p: Vec3l, q: Vec3l) -> int {
    (p.x - q.x) * (p.y + q.y)
}

/// The vertex following position `i` in cyclic order.
pub open spec fn cyclic_next(vs: Seq<Vec3l>, i: int) -> Vec3l {
    if i + 1 == vs.len() {
        vs[0]
    } else {
        vs[i + 1]
    }
}

/// The x component of the Newell sum over the first `m` cyclic edges.
pub open spec fn newell_sum_x(vs: Seq<Vec3l>, m: int) -> int
    decreases m,
{
    if m <= 0 {
        0
    } else {
        newell_sum_x(vs, m - 1) + newell_term_x(vs[m - 1], cyclic_next(vs, m - 1))
    }
}

/// The y component of the Newell sum over the first `m` cyclic edges.
pub open spec fn newell_sum_y(vs: Seq<Vec3l>, m: int) -> int
    decreases m,
{
    if m <= 0 {
        0
    } else {
        newell_sum_y(vs, m - 1) + newell_term_y(vs[m - 1], cyclic_next(vs, m - 1))
    }
}

/// The z component of the Newell sum over the first `m` cyclic edges.
pub open spec fn newell_sum_z(vs: Seq<Vec3l>, m: int) -> int
    decreases m,
{
    if m <= 0 {
        0
    } else {
        newell_sum_z(vs, m - 1) + newell_term_z(vs[m - 1], cyclic_next(vs, m - 1))
    }
}

/// Computes the Newell sum of an ordered face boundary: the vector whose
/// direction is the face normal (for a CCW boundary seen from the front)
/// and whose length is twice the enclosed area. Returns `None` exactly
/// when fewer than three vertices are supplied. The sum is exact; its
/// normalization to unit length leaves the integer domain and is not part
/// of the kernel.
pub fn newell_sum(vertices: &Vec<Vec3l>) -> (r: Option<(i128, i128, i128)>)
    requires
        forall|i: int| 0 <= i < vertices@.len() ==> newell_in_range(#[trigger] vertices@[i]),
    ensures
        match r {
            None => vertices@.len() < 3,
            Some(s) => {
                &&& vertices@.len() >= 3
                &&& s.0 == newell_sum_x(vertices@, vertices@.len() as int)
                &&& s.1 == newell_sum_y(vertices@, vertices@.len() as int)
                &&& s.2 == newell_sum_z(vertices@, vertices@.len() as int)
            },
        },
{
    let size = vertices.len();
    if size < 3 {
        return None;
    }

    let mut sx: i128 = 0;
    let mut sy: i128 = 0;
    let mut sz: i128 = 0;
    let mut current = vertices[0];

    let ghost bound: int = 0x4000_0000_0000_0000;

    let mut i: usize = 0;
    while i < size
        invariant
            size == vertices@.len(),
            3 <= size,
            forall|j: int| 0 <= j < vertices@.len() ==> newell_in_range(#[trigger] vertices@[j]),
            0 <= i <= size,
            current == vertices@[if i == size {
                0int
            } else {
                i as int
            }],
            bound == 0x4000_0000_0000_0000,
            sx == newell_sum_x(vertices@, i as int),
            sy == newell_sum_y(vertices@, i as int),
            sz == newell_sum_z(vertices@, i as int),
            -(i * bound) <= sx <= i * bound,
            -(i * bound) <= sy <= i * bound,
            -(i * bound) <= sz <= i * bound,
        decreases size - i,
    {
        let next_idx = if i + 1 == size {
            0
        } else {
            i + 1
        };
        let next = vertices[next_idx];

        proof {
            assert(newell_in_range(vertices@[i as int]));
            assert(newell_in_range(vertices@[next_idx as int]));
            lemma_mul_bound((current.y - next.y) as int, (current.z + next.z) as int, 2 * (
            NEWELL_COORD_LIMIT as int));
            lemma_mul_bound((current.z - next.z) as int, (current.x + next.x) as int, 2 * (
            NEWELL_COORD_LIMIT as int));
            lemma_mul_bound((current.x - next.x) as int, (current.y + next.y) as int, 2 * (
            NEWELL_COORD_LIMIT as int));
        }

        let dx = current.x - next.x;
        let dy = current.y - next.y;
        let dz = current.z - next.z;
        let ax = current.x + next.x;
        let ay = current.y + next.y;
        let az = current.z + next.z;

        sx = sx + (dy as i128) * (az as i128);
        sy = sy + (dz as i128) * (ax as i128);
        sz = sz + (dx as i128) * (ay as i128);

        proof {
            assert(cyclic_next(vertices@, i as int) == vertices@[next_idx as int]);
        }

        current = next;
        i = i + 1;
    }

    Some((sx, sy, sz))
}

/// The vertices preceding and following `vertex` in the winding of a
/// triangular face: scanning the three corners in order, the last corner
/// equal to `vertex` determines the answer, and a vertex absent from the
/// face yields `(vertex, vertex)`.
pub open spec fn spec_corner_neighbors(face: (usize, usize, usize), vertex: usize) -> (
    usize,
    usize,
) {
    if face.2 == vertex {
        (face.1, face.0)
    } else if face.1 == vertex {
        (face.0, face.2)
    } else if face.0 == vertex {
        (face.2, face.1)
    } else {
        (vertex, vertex)
    }
}

/// Locates `vertex` within the winding of the face `(a, b, c)` and
/// returns the pair (previous vertex, next vertex) around it.
pub fn corner_neighbors(face: (usize, usize, usize), vertex: usize) -> (r: (usize, usize))
    ensures
        r == spec_corner_neighbors(face, vertex),
{
    if face.2 == vertex {
        (face.1, face.0)
    } else if face.1 == vertex {
        (face.0, face.2)
    } else if face.0 == vertex {
        (face.2, face.1)
    } else {
        (vertex, vertex)
    }
}

/// The index triple of face `f` of an index buffer.
pub open spec fn spec_face(idx: Seq<usize>, f: int) -> (usize, usize, usize) {
    (idx[3 * f], idx[3 * f + 1], idx[3 * f + 2])
}

/// For a vertex and the faces incident to it, computes the per-face
/// corner plan of the angle-weighted pseudo-normal: one entry
/// `(face, previous vertex, next vertex)` per incident face, in the order
/// the faces were given. The floating-point layer turns each entry into
/// an interior angle and a face normal and averages them.
pub fn vertex_corner_plan<V>(
    mesh: &TriangleVertexMesh<V>,
    vertex_idx: usize,
    face_indices: &Vec<usize>,
) -> (r: Vec<(usize, usize, usize)>)
    requires
        forall|j: int|
            0 <= j < face_indices@.len() ==> (#[trigger] face_indices@[j])
                < mesh.spec_indices().len() / 3,
    ensures
        r@.len() == face_indices@.len(),
        forall|j: int|
            0 <= j < r@.len() ==> {
                let f = face_indices@[j];
                let neighbors = spec_corner_neighbors(
                    spec_face(mesh.spec_indices(), f as int),
                    vertex_idx,
                );
                (#[trigger] r@[j]) == (f, neighbors.0, neighbors.1)
            },
{
    let n = face_indices.len();
    let mut plan: Vec<(usize, usize, usize)> = Vec::new();

    let mut j: usize = 0;
    while j < n
        invariant
            n == face_indices@.len(),
            0 <= j <= n,
            forall|k: int|
                0 <= k < face_indices@.len() ==> (#[trigger] face_indices@[k])
                    < mesh.spec_indices().len() / 3,
            plan@.len() == j,
            forall|k: int|
                0 <= k < j ==> {
                    let f = face_indices@[k];
                    let neighbors = spec_corner_neighbors(
                        spec_face(mesh.spec_indices(), f as int),
                        vertex_idx,
                    );
                    (#[trigger] plan@[k]) == (f, neighbors.0, neighbors.1)
                },
        decreases n - j,
    {
        let f = face_indices[j];
        let face = mesh.get_face(f);
        let neighbors = corner_neighbors(face, vertex_idx);
        plan.push((f, neighbors.0, neighbors.1));
        j = j + 1;
    }

    plan
}

/// Whether `entry` is a correct corner plan for `vertex`: its rows name
/// exactly the faces of the mesh incident to `vertex`, each once, paired
/// with the vertices winding around `vertex` in that face.
pub open spec fn plan_entry_ok(idx: Seq<usize>, vertex: usize, entry: Seq<(usize, usize, usize)>) -> bool {
    &&& forall|a: int, b: int| 0 <= a < b < entry.len() ==> entry[a].0 != entry[b].0
    &&& forall|j: int|
        0 <= j < entry.len() ==> {
            let f = (#[trigger] entry[j]).0;
            let neighbors = spec_corner_neighbors(spec_face(idx, f as int), vertex);
            &&& spec_vertex_faces(idx, vertex).contains(f)
            &&& entry[j].1 == neighbors.0
            &&& entry[j].2 == neighbors.1
        }
    &&& forall|f: usize|
        spec_vertex_faces(idx, vertex).contains(f) ==> exists|j: int|
            0 <= j < entry.len() && (#[trigger] entry[j]).0 == f
}

/// For every vertex some triangle references, in increasing vertex
/// order, the corner plan of its angle-weighted pseudo-normal: one row
/// `(face, previous vertex, next vertex)` per incident face. This is the
/// whole index-level skeleton of the per-vertex normal pass; the
/// floating-point layer reduces each plan to one normal.
pub fn pseudo_normal_corner_plans<V>(mesh: &TriangleVertexMesh<V>) -> (r: Vec<
    (usize, Vec<(usize, usize, usize)>),
>)
    requires
        mesh.well_formed(),
    ensures
        forall|a: int, b: int| 0 <= a < b < r@.len() ==> r@[a].0 < r@[b].0,
        forall|i: int|
            0 <= i < r@.len() ==> spec_referenced(mesh.spec_indices(), (#[trigger] r@[i]).0),
        forall|v: usize|
            #[trigger] spec_referenced(mesh.spec_indices(), v) ==> exists|i: int|
                0 <= i < r@.len() && (#[trigger] r@[i]).0 == v,
        forall|i: int|
            0 <= i < r@.len() ==> plan_entry_ok(
                mesh.spec_indices(),
                (#[trigger] r@[i]).0,
                r@[i].1@,
            ),
{
    let ghost idx = mesh.spec_indices();
    // Only supported queries can fail, and vertex-to-face is supported.
    let incidence = match mesh.make_incidence_map(MeshComponent::VERTEX, MeshComponent::FACE) {
        Ok(m) => m,
        Err(_) => {
            proof {
                assert(false);
            }
            unreached()
        },
    };
    let nv = mesh.get_vertices().len();
    let mut plans: Vec<(usize, Vec<(usize, usize, usize)>)> = Vec::new();

    let mut v: usize = 0;
    while v < nv
        invariant
            mesh.well_formed(),
            idx == mesh.spec_indices(),
            nv == mesh.spec_vertices().len(),
            incidence@ == crate::triangle_vertex_mesh::spec_vertex_face_map(idx),
            incidence.wf(),
            0 <= v <= nv,
            forall|a: int, b: int| 0 <= a < b < plans@.len() ==> plans@[a].0 < plans@[b].0,
            forall|i: int|
                0 <= i < plans@.len() ==> (#[trigger] plans@[i]).0 < v && spec_referenced(
                    idx,
                    plans@[i].0,
                ),
            forall|u: usize|
                u < v && #[trigger] spec_referenced(idx, u) ==> exists|i: int|
                    0 <= i < plans@.len() && (#[trigger] plans@[i]).0 == u,
            forall|i: int|
                0 <= i < plans@.len() ==> plan_entry_ok(idx, (#[trigger] plans@[i]).0, plans@[i].1@),
        decreases nv - v,
    {
        match incidence.get(v) {
            Some(faces) => {
                proof {
                    assert(incidence@.dom().contains(v));
                    assert(spec_referenced(idx, v));
                    assert(faces@.to_set() == spec_vertex_faces(idx, v));
                    assert forall|j: int|
                        0 <= j < faces@.len() implies (#[trigger] faces@[j]) < idx.len() / 3 by {
                        assert(faces@.to_set().contains(faces@[j]));
                        assert(spec_vertex_faces(idx, v).contains(faces@[j]));
                        let k = choose|k: int|
                            0 <= k < idx.len() && k / 3 == faces@[j] && idx[k] == v;
                        lemma_face_index_bound(idx.len() as int, k, faces@[j] as int);
                    }
                }
                let plan = vertex_corner_plan(mesh, v, faces);
                let ghost pre = plans@;
                plans.push((v, plan));
                proof {
                    assert forall|i: int|
                        0 <= i < plans@.len() implies plan_entry_ok(
                        idx,
                        (#[trigger] plans@[i]).0,
                        plans@[i].1@,
                    ) by {
                        if i < pre.len() {
                            assert(plans@[i] == pre[i]);
                        } else {
                            assert(plans@[i] == (v, plan));
                            lemma_plan_entry_ok(idx, v, faces@, plan@);
                        }
                    }
                    assert forall|u: usize|
                        u < v + 1 && #[trigger] spec_referenced(idx, u) implies exists|i: int|
                        0 <= i < plans@.len() && (#[trigger] plans@[i]).0 == u by {
                        if u < v {
                            let i = choose|i: int| 0 <= i < pre.len() && (#[trigger] pre[i]).0 == u;
                            assert(plans@[i].0 == u);
                        } else {
                            assert(plans@[plans@.len() - 1].0 == u);
                        }
                    }
                }
            },
            None => {
                proof {
                    assert(!incidence@.dom().contains(v));
                    assert forall|u: usize|
                        u < v + 1 && #[trigger] spec_referenced(idx, u) implies exists|i: int|
                        0 <= i < plans@.len() && (#[trigger] plans@[i]).0 == u by {
                        if u == v {
                            assert(incidence@.dom().contains(v));
                        } else {
                            let i = choose|i: int|
                                0 <= i < plans@.len() && (#[trigger] plans@[i]).0 == u;
                            assert(plans@[i].0 == u);
                        }
                    }
                }
            },
        }
        v = v + 1;
    }

    proof {
        assert forall|u: usize| #[trigger]
            spec_referenced(idx, u) implies u < nv by {
            let k = choose|k: int| 0 <= k < idx.len() && idx[k] == u;
            assert(idx[k] < mesh.spec_vertices().len());
        }
    }
    plans
}

/// An index at position `k` of a well-formed index buffer belongs to
/// triangle `k / 3`, which is a valid triangle position.
proof fn lemma_face_index_bound(idx_len: int, k: int, f: int)
    requires
        0 <= k < idx_len,
        k / 3 == f,
        idx_len % 3 == 0,
    ensures
        f < idx_len / 3,
{
    assert(f < idx_len / 3) by (nonlinear_arith)
        requires
            0 <= k < idx_len,
            k / 3 == f,
            idx_len % 3 == 0,
    ;
}

/// A per-face corner list built from a duplicate-free list of exactly the
/// incident faces is a correct corner plan.
proof fn lemma_plan_entry_ok(
    idx: Seq<usize>,
    vertex: usize,
    faces: Seq<usize>,
    entry: Seq<(usize, usize, usize)>,
)
    requires
        faces.no_duplicates(),
        faces.to_set() == spec_vertex_faces(idx, vertex),
        entry.len() == faces.len(),
        forall|j: int|
            0 <= j < entry.len() ==> {
                let f = faces[j];
                let neighbors = spec_corner_neighbors(spec_face(idx, f as int), vertex);
                (#[trigger] entry[j]) == (f, neighbors.0, neighbors.1)
            },
    ensures
        plan_entry_ok(idx, vertex, entry),
{
    assert forall|j: int|
        0 <= j < entry.len() implies {
        let f = (#[trigger] entry[j]).0;
        let neighbors = spec_corner_neighbors(spec_face(idx, f as int), vertex);
        &&& spec_vertex_faces(idx, vertex).contains(f)
        &&& entry[j].1 == neighbors.0
        &&& entry[j].2 == neighbors.1
    } by {
        assert(entry[j].0 == faces[j]);
        assert(faces.to_set().contains(faces[j]));
    }
    assert forall|f: usize|
        spec_vertex_faces(idx, vertex).contains(f) implies exists|j: int|
        0 <= j < entry.len() && (#[trigger] entry[j]).0 == f by {
        assert(faces.to_set().contains(f));
        let j = choose|j: int| 0 <= j < faces.len() && faces[j] == f;
        assert(entry[j].0 == f);
    }
}

} // verus!
