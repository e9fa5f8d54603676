//! Triangle-vertex meshes and their incidence structure.
//!
//! A triangle-vertex mesh is a vertex buffer plus a flat index buffer
//! whose consecutive triples each name one triangular face in CCW winding.
//! The constructor enforces that the index buffer's length is a multiple
//! of three and that every index names an existing vertex.
//!
//! The mesh is generic over the vertex payload: the adjacency algorithms
//! read only the index buffer, never the coordinates.

use vstd::prelude::*;

use crate::common_properties::NormalMap;
use crate::property_map::PropertyStore;
use crate::property_map::PropertyType;

verus! {

/// A kind of mesh component an incidence query can relate.
#[allow(non_camel_case_types)]
#[derive(Clone, Copy, PartialEq, Eq, Structural, Debug)]
pub enum MeshComponent {
    VERTEX,
    EDGE,
    FACE,
}

/// The error signalled for incidence-map combinations the kernel does not
/// support; only vertex-to-vertex and vertex-to-face queries are
/// implemented.
#[derive(Clone, Copy, PartialEq, Eq, Structural, Debug)]
pub struct UnsupportedIncidence;

/// Whether vertex `v` appears among the first `m` entries of the index
/// buffer.
pub open spec fn referenced_upto(idx: Seq<usize>, m: int, v: usize) -> bool {
    exists|k: int| 0 <= k < m && idx[k] == v
}

/// Whether vertex `v` appears in the index buffer at all.
pub open spec fn spec_referenced(idx: Seq<usize>, v: usize) -> bool {
    referenced_upto(idx, idx.len() as int, v)
}

/// Whether, within the first `m` entries of the index buffer, some
/// triangle has `v` at one corner and `u` at a different corner.
pub open spec fn adjacent_upto(idx: Seq<usize>, m: int, v: usize, u: usize) -> bool {
    exists|k: int, j: int|
        0 <= k < m && 0 <= j < m && k / 3 == j / 3 && k != j && idx[k] == v && idx[j] == u
}

/// The vertices sharing a triangle with `v`, each at a corner other than
/// the one `v` occupies.
pub open spec fn spec_vertex_neighbors(idx: Seq<usize>, v: usize) -> Set<usize> {
    Set::new(|u: usize| adjacent_upto(idx, idx.len() as int, v, u))
}

/// Whether, within the first `m` entries of the index buffer, triangle
/// `f` has `v` at one of its corners.
pub open spec fn incident_upto(idx: Seq<usize>, m: int, v: usize, f: usize) -> bool {
    exists|k: int| 0 <= k < m && k / 3 == f && idx[k] == v
}

/// The triangles having `v` at one of their corners, named by position in
/// the triangle list.
pub open spec fn spec_vertex_faces(idx: Seq<usize>, v: usize) -> Set<usize> {
    Set::new(|f: usize| incident_upto(idx, idx.len() as int, v, f))
}

/// The vertex-to-vertex incidence of an index buffer: each referenced
/// vertex, mapped to the set of vertices it shares a triangle with.
pub open spec fn spec_vertex_vertex_map(idx: Seq<usize>) -> Map<usize, Set<usize>> {
    Map::new(|v: usize| spec_referenced(idx, v), |v: usize| spec_vertex_neighbors(idx, v))
}

/// The vertex-to-face incidence of an index buffer: each referenced
/// vertex, mapped to the set of triangles it is a corner of.
pub open spec fn spec_vertex_face_map(idx: Seq<usize>) -> Map<usize, Set<usize>> {
    Map::new(|v: usize| spec_referenced(idx, v), |v: usize| spec_vertex_faces(idx, v))
}

/// The set represented by slot `v` of an entry table: empty for an absent
/// entry.
pub open spec fn slot_set(entries: Seq<Option<Vec<usize>>>, v: int) -> Set<usize> {
    if entries[v] is Some {
        entries[v]->Some_0@.to_set()
    } else {
        Set::empty()
    }
}

/// Whether every present slot of an entry table is free of duplicates.
pub open spec fn slots_wf(entries: Seq<Option<Vec<usize>>>) -> bool {
    forall|v: int|
        0 <= v < entries.len() && entries[v] is Some ==> (#[trigger] entries[v])->Some_0@.no_duplicates()
}

/// Processing one more triangle extends the referenced-vertex predicate
/// by exactly that triangle's three corners.
proof fn lemma_referenced_step(idx: Seq<usize>, t: int, v: usize)
    requires
        0 <= t,
        3 * t + 3 <= idx.len(),
    ensures
        referenced_upto(idx, 3 * t + 3, v) <==> (referenced_upto(idx, 3 * t, v) || v == idx[3 * t]
            || v == idx[3 * t + 1] || v == idx[3 * t + 2]),
{
    let m = 3 * t;
    if referenced_upto(idx, m + 3, v) {
        let k = choose|k: int| 0 <= k < m + 3 && idx[k] == v;
        if k < m {
            assert(referenced_upto(idx, m, v));
        }
    }
    if referenced_upto(idx, m, v) {
        let k = choose|k: int| 0 <= k < m && idx[k] == v;
        assert(0 <= k < m + 3 && idx[k] == v);
    }
    assert(idx[m] == idx[m] && idx[m + 1] == idx[m + 1] && idx[m + 2] == idx[m + 2]);
}

/// Processing one more triangle extends the adjacency predicate by
/// exactly the ordered corner pairs of that triangle.
proof fn lemma_adjacent_step(idx: Seq<usize>, t: int, v: usize, u: usize)
    requires
        0 <= t,
        3 * t + 3 <= idx.len(),
    ensures
        adjacent_upto(idx, 3 * t + 3, v, u) <==> (adjacent_upto(idx, 3 * t, v, u) || {
            let a = idx[3 * t];
            let b = idx[3 * t + 1];
            let c = idx[3 * t + 2];
            ||| (v == a && (u == b || u == c))
            ||| (v == b && (u == a || u == c))
            ||| (v == c && (u == a || u == b))
        }),
{
    let m = 3 * t;
    let a = idx[m];
    let b = idx[m + 1];
    let c = idx[m + 2];
    assert(m / 3 == t && (m + 1) / 3 == t && (m + 2) / 3 == t) by (nonlinear_arith)
        requires
            m == 3 * t,
            0 <= t,
    ;
    if adjacent_upto(idx, m + 3, v, u) {
        let (k, j) = choose|k: int, j: int|
            0 <= k < m + 3 && 0 <= j < m + 3 && k / 3 == j / 3 && k != j && idx[k] == v && idx[j]
                == u;
        if k < m && j < m {
            assert(adjacent_upto(idx, m, v, u));
        } else {
            if k >= m {
                assert(k / 3 == t);
            } else {
                assert(j / 3 == t);
                assert(3 * t <= j < 3 * t + 3) by (nonlinear_arith)
                    requires
                        j / 3 == t,
                ;
                assert(k / 3 == t);
            }
            assert(3 * t <= k < 3 * t + 3) by (nonlinear_arith)
                requires
                    k / 3 == t,
            ;
            assert(3 * t <= j < 3 * t + 3) by (nonlinear_arith)
                requires
                    j / 3 == t,
            ;
            assert(k == m || k == m + 1 || k == m + 2);
            assert(j == m || j == m + 1 || j == m + 2);
        }
    }
    if adjacent_upto(idx, m, v, u) {
        let (k, j) = choose|k: int, j: int|
            0 <= k < m && 0 <= j < m && k / 3 == j / 3 && k != j && idx[k] == v && idx[j] == u;
        assert(0 <= k < m + 3 && 0 <= j < m + 3 && k / 3 == j / 3 && k != j && idx[k] == v && idx[j]
            == u);
    }
    if v == a && u == b {
        assert(idx[m] == v && idx[m + 1] == u && m / 3 == (m + 1) / 3 && m != m + 1);
        assert(adjacent_upto(idx, m + 3, v, u));
    }
    if v == a && u == c {
        assert(idx[m] == v && idx[m + 2] == u && m / 3 == (m + 2) / 3 && m != m + 2);
        assert(adjacent_upto(idx, m + 3, v, u));
    }
    if v == b && u == a {
        assert(idx[m + 1] == v && idx[m] == u);
        assert(adjacent_upto(idx, m + 3, v, u));
    }
    if v == b && u == c {
        assert(idx[m + 1] == v && idx[m + 2] == u);
        assert(adjacent_upto(idx, m + 3, v, u));
    }
    if v == c && u == a {
        assert(idx[m + 2] == v && idx[m] == u);
        assert(adjacent_upto(idx, m + 3, v, u));
    }
    if v == c && u == b {
        assert(idx[m + 2] == v && idx[m + 1] == u);
        assert(adjacent_upto(idx, m + 3, v, u));
    }
}

/// Processing one more triangle extends the face-incidence predicate by
/// exactly that triangle for its three corner vertices.
proof fn lemma_incident_step(idx: Seq<usize>, t: int, v: usize, f: usize)
    requires
        0 <= t,
        3 * t + 3 <= idx.len(),
    ensures
        incident_upto(idx, 3 * t + 3, v, f) <==> (incident_upto(idx, 3 * t, v, f) || (f == t && (v
            == idx[3 * t] || v == idx[3 * t + 1] || v == idx[3 * t + 2]))),
{
    let m = 3 * t;
    assert(m / 3 == t && (m + 1) / 3 == t && (m + 2) / 3 == t) by (nonlinear_arith)
        requires
            m == 3 * t,
            0 <= t,
    ;
    if incident_upto(idx, m + 3, v, f) {
        let k = choose|k: int| 0 <= k < m + 3 && k / 3 == f && idx[k] == v;
        if k < m {
            assert(incident_upto(idx, m, v, f));
        } else {
            assert(k / 3 == t);
        }
    }
    if incident_upto(idx, m, v, f) {
        let k = choose|k: int| 0 <= k < m && k / 3 == f && idx[k] == v;
        assert(0 <= k < m + 3 && k / 3 == f && idx[k] == v);
    }
    if f == t {
        if v == idx[m] {
            assert(incident_upto(idx, m + 3, v, f));
        }
        if v == idx[m + 1] {
            assert(incident_upto(idx, m + 3, v, f));
        }
        if v == idx[m + 2] {
            assert(incident_upto(idx, m + 3, v, f));
        }
    }
}

/// Reports whether `x` occurs in `l`.
fn list_contains(l: &Vec<usize>, x: usize) -> (b: bool)
    ensures
        b == l@.contains(x),
{
    let n = l.len();
    let mut i: usize = 0;
    while i < n
        invariant
            n == l@.len(),
            0 <= i <= n,
            forall|j: int| 0 <= j < i ==> l@[j] != x,
        decreases n - i,
    {
        if l[i] == x {
            return true;
        }
        i = i + 1;
    }
    false
}

/// Records `value` as incident to `key`: creates the slot if absent, and
/// keeps each incidence list free of duplicates.
fn insert_incidence(entries: &mut Vec<Option<Vec<usize>>>, key: usize, value: usize)
    requires
        key < old(entries)@.len(),
        slots_wf(old(entries)@),
    ensures
        final(entries)@.len() == old(entries)@.len(),
        slots_wf(final(entries)@),
        final(entries)@[key as int] is Some,
        slot_set(final(entries)@, key as int) == slot_set(old(entries)@, key as int).insert(value),
        forall|v: int|
            0 <= v < old(entries)@.len() && v != key ==> final(entries)@[v] == old(entries)@[v],
{
    let slot = &mut entries[key];
    match slot {
        None => {
            let l: Vec<usize> = vec![value];
            proof {
                assert(l@.to_set() =~= Set::empty().insert(value));
            }
            *slot = Some(l);
        },
        Some(l) => {
            if !list_contains(l, value) {
                let ghost pre = l@;
                l.push(value);
                proof {
                    assert forall|x: usize| #[trigger] l@.contains(x) implies pre.contains(x) || x
                        == value by {
                        let i = choose|i: int| 0 <= i < l@.len() && l@[i] == x;
                        if i < pre.len() {
                            assert(pre[i] == x);
                        }
                    }
                    assert forall|x: usize| pre.contains(x) || x == value implies #[trigger] l@.contains(
                        x,
                    ) by {
                        if x == value {
                            assert(l@[l@.len() - 1] == x);
                        } else {
                            let i = choose|i: int| 0 <= i < pre.len() && pre[i] == x;
                            assert(l@[i] == x);
                        }
                    }
                    assert(l@.to_set() =~= pre.to_set().insert(value));
                    assert forall|i: int, j: int|
                        0 <= i < l@.len() && 0 <= j < l@.len() && i != j implies l@[i] != l@[j] by {
                        if i < pre.len() && j < pre.len() {
                            assert(pre[i] != pre[j]);
                        }
                    }
                }
            } else {
                proof {
                    assert(l@.to_set() =~= l@.to_set().insert(value));
                }
            }
        },
    }
}

/// The keys among the first `m` slots of an entry table.
spec fn spec_dom_upto(entries: Seq<Option<Vec<usize>>>, m: int) -> Set<usize> {
    Set::new(|v: usize| (v as int) < m && entries[v as int] is Some)
}

/// An incidence map: origin component indices mapped to the set of
/// incident component indices. Keys exist only for components that appear
/// in the index buffer. The view is the key-to-set mapping.
pub struct IncidenceMap {
    entries: Vec<Option<Vec<usize>>>,
}

impl View for IncidenceMap {
    type V = Map<usize, Set<usize>>;

    closed spec fn view(&self) -> Map<usize, Set<usize>> {
        Map::new(
            |v: usize| v < self.entries@.len() && self.entries@[v as int] is Some,
            |v: usize| self.entries@[v as int]->Some_0@.to_set(),
        )
    }
}

impl IncidenceMap {
    /// Whether every stored incidence list is free of duplicates, so that
    /// a list's length is the cardinality of the set it represents.
    pub closed spec fn wf(&self) -> bool {
        forall|v: int|
            0 <= v < self.entries@.len() && self.entries@[v] is Some
                ==> (#[trigger] self.entries@[v])->Some_0@.no_duplicates()
    }

    /// The number of keys of the map.
    pub fn key_count(&self) -> (r: usize)
        ensures
            r == self@.dom().len(),
    {
        let n = self.entries.len();
        let mut count: usize = 0;
        let mut i: usize = 0;
        proof {
            broadcast use vstd::set::group_set_axioms;

            assert(spec_dom_upto(self.entries@, 0) =~= Set::<usize>::empty());
        }
        while i < n
            invariant
                n == self.entries@.len(),
                0 <= i <= n,
                count <= i,
                spec_dom_upto(self.entries@, i as int).finite(),
                count == spec_dom_upto(self.entries@, i as int).len(),
            decreases n - i,
        {
            proof {
                broadcast use vstd::set::group_set_axioms;

                let pre = spec_dom_upto(self.entries@, i as int);
                let post = spec_dom_upto(self.entries@, i as int + 1);
                if self.entries@[i as int] is Some {
                    assert(!pre.contains(i));
                    assert(post =~= pre.insert(i));
                } else {
                    assert(post =~= pre);
                }
            }
            if self.entries[i].is_some() {
                count = count + 1;
            }
            i = i + 1;
        }
        proof {
            assert(spec_dom_upto(self.entries@, n as int) =~= self@.dom());
        }
        count
    }

    /// Whether `v` is a key of the map.
    pub fn contains_key(&self, v: usize) -> (b: bool)
        ensures
            b == self@.dom().contains(v),
    {
        v < self.entries.len() && self.entries[v].is_some()
    }

    /// The incidence list of `v`, or `None` when `v` is not a key. The
    /// list holds each incident index exactly once, in no promised order.
    pub fn get(&self, v: usize) -> (r: Option<&Vec<usize>>)
        ensures
            match r {
                Some(l) => self@.dom().contains(v) && l@.to_set() == self@[v] && (self.wf()
                    ==> l@.no_duplicates()),
                None => !self@.dom().contains(v),
            },
    {
        if v < self.entries.len() {
            self.entries[v].as_ref()
        } else {
            None
        }
    }
}

/// A vertex buffer plus a flat triangle index buffer. Every three
/// consecutive indices form one face. Generic over the vertex payload,
/// which the adjacency algorithms never read.
pub struct TriangleVertexMesh<V> {
    vertices: Vec<V>,
    indices: Vec<usize>,
    vertex_properties: PropertyStore<V>,
    face_properties: PropertyStore<V>,
}

impl<V> TriangleVertexMesh<V> {
    /// The vertex buffer, as a sequence.
    pub closed spec fn spec_vertices(&self) -> Seq<V> {
        self.vertices@
    }

    /// The index buffer, as a sequence.
    pub closed spec fn spec_indices(&self) -> Seq<usize> {
        self.indices@
    }

    /// The per-vertex attribute store.
    pub closed spec fn spec_vertex_properties(&self) -> PropertyStore<V> {
        self.vertex_properties
    }

    /// The per-face attribute store.
    pub closed spec fn spec_face_properties(&self) -> PropertyStore<V> {
        self.face_properties
    }

    /// The structural invariant: whole triangles only, and every index
    /// names an existing vertex.
    pub open spec fn well_formed(&self) -> bool {
        &&& self.spec_indices().len() % 3 == 0
        &&& forall|k: int|
            0 <= k < self.spec_indices().len() ==> (#[trigger] self.spec_indices()[k])
                < self.spec_vertices().len()
    }

    /// Builds an empty mesh.
    pub fn new() -> (r: Self)
        ensures
            r.spec_vertices() == Seq::<V>::empty(),
            r.spec_indices() == Seq::<usize>::empty(),
            r.well_formed(),
            forall|pt: PropertyType| !(#[trigger] r.spec_vertex_properties().has(pt)),
            forall|pt: PropertyType| !(#[trigger] r.spec_face_properties().has(pt)),
    {
        TriangleVertexMesh {
            vertices: Vec::new(),
            indices: Vec::new(),
            vertex_properties: PropertyStore::new(),
            face_properties: PropertyStore::new(),
        }
    }

    /// Builds a mesh from a vertex buffer and an index buffer. Returns
    /// `None` exactly when the index buffer is malformed: its length is
    /// not a multiple of three, or some index names no vertex.
    pub fn from(vertices: Vec<V>, indices: Vec<usize>) -> (r: Option<Self>)
        ensures
            match r {
                Some(m) => {
                    &&& m.spec_vertices() == vertices@
                    &&& m.spec_indices() == indices@
                    &&& m.well_formed()
                    &&& forall|pt: PropertyType| !(#[trigger] m.spec_vertex_properties().has(pt))
                    &&& forall|pt: PropertyType| !(#[trigger] m.spec_face_properties().has(pt))
                },
                None => !(indices@.len() % 3 == 0 && forall|k: int|
                    0 <= k < indices@.len() ==> (#[trigger] indices@[k]) < vertices@.len()),
            },
    {
        if indices.len() % 3 != 0 {
            return None;
        }
        let nv = vertices.len();
        let ni = indices.len();
        let mut k: usize = 0;
        while k < ni
            invariant
                ni == indices@.len(),
                nv == vertices@.len(),
                0 <= k <= ni,
                forall|j: int| 0 <= j < k ==> (#[trigger] indices@[j]) < nv,
            decreases ni - k,
        {
            if indices[k] >= nv {
                proof {
                    assert(indices@[k as int] >= vertices@.len());
                }
                return None;
            }
            k = k + 1;
        }
        Some(
            TriangleVertexMesh {
                vertices,
                indices,
                vertex_properties: PropertyStore::new(),
                face_properties: PropertyStore::new(),
            },
        )
    }

    /// Adds a fresh, empty per-vertex property collection of the given
    /// kind. Reports `false` without changing anything when the kind is
    /// already present or has no registered container.
    pub fn add_vertex_property(&mut self, property_type: PropertyType) -> (added: bool)
        ensures
            final(self).spec_vertices() == old(self).spec_vertices(),
            final(self).spec_indices() == old(self).spec_indices(),
            final(self).spec_face_properties() == old(self).spec_face_properties(),
            added == (property_type == PropertyType::NORMAL
                && !old(self).spec_vertex_properties().has(PropertyType::NORMAL)),
            added ==> final(self).spec_vertex_properties().has(property_type) && final(
                self).spec_vertex_properties().map_view(property_type) == Seq::<
                Option<V>,
            >::empty(),
            !added ==> final(self).spec_vertex_properties() == old(self).spec_vertex_properties(),
    {
        self.vertex_properties.add_property_map(property_type)
    }

    /// The per-vertex property collection of the given kind, or `None`
    /// when that kind was never added.
    pub fn get_vertex_property(&mut self, property_type: PropertyType) -> (r: Option<
        &mut NormalMap<V>,
    >)
        ensures
            final(self).spec_vertices() == old(self).spec_vertices(),
            final(self).spec_indices() == old(self).spec_indices(),
            final(self).spec_face_properties() == old(self).spec_face_properties(),
            match r {
                Some(m) => {
                    &&& old(self).spec_vertex_properties().has(property_type)
                    &&& property_type == PropertyType::NORMAL
                    &&& m@ == old(self).spec_vertex_properties().map_view(property_type)
                    &&& final(self).spec_vertex_properties().has(property_type)
                    &&& final(self).spec_vertex_properties().map_view(property_type) == final(m)@
                },
                None => *final(self) == *old(self) && !old(self).spec_vertex_properties().has(
                    property_type,
                ),
            },
    {
        self.vertex_properties.get_property_map(property_type)
    }

    /// Adds a fresh, empty per-face property collection of the given
    /// kind. Reports `false` without changing anything when the kind is
    /// already present or has no registered container.
    pub fn add_face_property(&mut self, property_type: PropertyType) -> (added: bool)
        ensures
            final(self).spec_vertices() == old(self).spec_vertices(),
            final(self).spec_indices() == old(self).spec_indices(),
            final(self).spec_vertex_properties() == old(self).spec_vertex_properties(),
            added == (property_type == PropertyType::NORMAL
                && !old(self).spec_face_properties().has(PropertyType::NORMAL)),
            added ==> final(self).spec_face_properties().has(property_type) && final(
                self).spec_face_properties().map_view(property_type) == Seq::<
                Option<V>,
            >::empty(),
            !added ==> final(self).spec_face_properties() == old(self).spec_face_properties(),
    {
        self.face_properties.add_property_map(property_type)
    }

    /// The per-face property collection of the given kind, or `None`
    /// when that kind was never added.
    pub fn get_face_property(&mut self, property_type: PropertyType) -> (r: Option<
        &mut NormalMap<V>,
    >)
        ensures
            final(self).spec_vertices() == old(self).spec_vertices(),
            final(self).spec_indices() == old(self).spec_indices(),
            final(self).spec_vertex_properties() == old(self).spec_vertex_properties(),
            match r {
                Some(m) => {
                    &&& old(self).spec_face_properties().has(property_type)
                    &&& property_type == PropertyType::NORMAL
                    &&& m@ == old(self).spec_face_properties().map_view(property_type)
                    &&& final(self).spec_face_properties().has(property_type)
                    &&& final(self).spec_face_properties().map_view(property_type) == final(m)@
                },
                None => *final(self) == *old(self) && !old(self).spec_face_properties().has(
                    property_type,
                ),
            },
    {
        self.face_properties.get_property_map(property_type)
    }

    /// The vertex buffer.
    pub fn get_vertices(&self) -> (r: &Vec<V>)
        ensures
            r@ == self.spec_vertices(),
    {
        &self.vertices
    }

    /// The index buffer.
    pub fn get_indices(&self) -> (r: &Vec<usize>)
        ensures
            r@ == self.spec_indices(),
    {
        &self.indices
    }

    /// The number of triangles.
    pub fn num_faces(&self) -> (r: usize)
        ensures
            r == self.spec_indices().len() / 3,
    {
        self.indices.len() / 3
    }

    /// Builds the vertex-to-vertex incidence map: each corner of every
    /// triangle becomes adjacent to the triangle's other two corners.
    fn build_vertex_vertex(&self) -> (r: IncidenceMap)
        requires
            self.well_formed(),
        ensures
            r@ == spec_vertex_vertex_map(self.spec_indices()),
            r.wf(),
    {
        let ghost idx = self.spec_indices();
        let nv = self.vertices.len();
        let ni = self.indices.len();
        let nt = ni / 3;

        let mut entries: Vec<Option<Vec<usize>>> = Vec::new();
        let mut v0: usize = 0;
        while v0 < nv
            invariant
                entries@.len() == v0,
                0 <= v0 <= nv,
                forall|v: int| 0 <= v < v0 ==> entries@[v] is None,
            decreases nv - v0,
        {
            entries.push(None);
            v0 = v0 + 1;
        }

        let mut t: usize = 0;
        while t < nt
            invariant
                self.well_formed(),
                idx == self.spec_indices(),
                nv == self.spec_vertices().len(),
                ni == idx.len(),
                nt == ni / 3,
                0 <= t <= nt,
                entries@.len() == nv,
                slots_wf(entries@),
                forall|v: int|
                    0 <= v < nv ==> ((#[trigger] entries@[v]) is Some <==> referenced_upto(
                        idx,
                        3 * t,
                        v as usize,
                    )),
                forall|v: int, u: usize|
                    #![trigger slot_set(entries@, v).contains(u)]
                    0 <= v < nv ==> (slot_set(entries@, v).contains(u) <==> adjacent_upto(
                        idx,
                        3 * t,
                        v as usize,
                        u,
                    )),
            decreases nt - t,
        {
            proof {
                assert(3 * (t as int) + 3 <= ni) by (nonlinear_arith)
                    requires
                        t < nt,
                        nt == (ni as int) / 3,
                ;
            }
            let base = 3 * t;
            let a = self.indices[base];
            let b = self.indices[base + 1];
            let c = self.indices[base + 2];

            let ghost e0 = entries@;
            insert_incidence(&mut entries, a, b);
            insert_incidence(&mut entries, a, c);
            insert_incidence(&mut entries, b, a);
            insert_incidence(&mut entries, b, c);
            insert_incidence(&mut entries, c, a);
            insert_incidence(&mut entries, c, b);

            proof {
                let m = 3 * (t as int);
                assert forall|v: int|
                    0 <= v < nv implies ((#[trigger] entries@[v]) is Some <==> referenced_upto(
                    idx,
                    m + 3,
                    v as usize,
                )) by {
                    lemma_referenced_step(idx, t as int, v as usize);
                }
                assert forall|v: int, u: usize|
                    #![trigger slot_set(entries@, v).contains(u)]
                    0 <= v < nv implies (slot_set(entries@, v).contains(u) <==> adjacent_upto(
                    idx,
                    m + 3,
                    v as usize,
                    u,
                )) by {
                    lemma_adjacent_step(idx, t as int, v as usize, u);
                    assert(slot_set(e0, v).contains(u) <==> adjacent_upto(idx, m, v as usize, u));
                }
            }
            t = t + 1;
        }

        let result = IncidenceMap { entries };
        proof {
            assert(3 * (nt as int) == ni) by (nonlinear_arith)
                requires
                    nt == (ni as int) / 3,
                    (ni as int) % 3 == 0,
                    0 <= ni,
            ;
            assert forall|v: usize| #[trigger]
                spec_referenced(idx, v) implies (v as int) < nv by {
                let k = choose|k: int| 0 <= k < idx.len() && idx[k] == v;
                assert(idx[k] < self.spec_vertices().len());
            }
            let sm = spec_vertex_vertex_map(idx);
            assert forall|v: usize| #[trigger]
                result@.dom().contains(v) implies sm.dom().contains(v) && result@[v] == sm[v] by {
                assert(referenced_upto(idx, 3 * (nt as int), v));
                assert(spec_referenced(idx, v));
                assert forall|u: usize| #[trigger]
                    result@[v].contains(u) == sm[v].contains(u) by {
                    assert(result@[v] == slot_set(result.entries@, v as int));
                    assert(slot_set(result.entries@, v as int).contains(u) <==> adjacent_upto(
                        idx,
                        3 * (nt as int),
                        v,
                        u,
                    ));
                }
                assert(result@[v] =~= sm[v]);
            }
            assert forall|v: usize| #[trigger]
                sm.dom().contains(v) implies result@.dom().contains(v) by {
                assert(spec_referenced(idx, v));
                assert(referenced_upto(idx, 3 * (nt as int), v));
            }
            assert(result@ =~~= sm);
        }
        result
    }

    /// Builds the vertex-to-face incidence map: every triangle is
    /// incident to each of its three corner vertices.
    fn build_vertex_face(&self) -> (r: IncidenceMap)
        requires
            self.well_formed(),
        ensures
            r@ == spec_vertex_face_map(self.spec_indices()),
            r.wf(),
    {
        let ghost idx = self.spec_indices();
        let nv = self.vertices.len();
        let ni = self.indices.len();
        let nt = ni / 3;

        let mut entries: Vec<Option<Vec<usize>>> = Vec::new();
        let mut v0: usize = 0;
        while v0 < nv
            invariant
                entries@.len() == v0,
                0 <= v0 <= nv,
                forall|v: int| 0 <= v < v0 ==> entries@[v] is None,
            decreases nv - v0,
        {
            entries.push(None);
            v0 = v0 + 1;
        }

        let mut t: usize = 0;
        while t < nt
            invariant
                self.well_formed(),
                idx == self.spec_indices(),
                nv == self.spec_vertices().len(),
                ni == idx.len(),
                nt == ni / 3,
                0 <= t <= nt,
                entries@.len() == nv,
                slots_wf(entries@),
                forall|v: int|
                    0 <= v < nv ==> ((#[trigger] entries@[v]) is Some <==> referenced_upto(
                        idx,
                        3 * t,
                        v as usize,
                    )),
                forall|v: int, f: usize|
                    #![trigger slot_set(entries@, v).contains(f)]
                    0 <= v < nv ==> (slot_set(entries@, v).contains(f) <==> incident_upto(
                        idx,
                        3 * t,
                        v as usize,
                        f,
                    )),
            decreases nt - t,
        {
            proof {
                assert(3 * (t as int) + 3 <= ni) by (nonlinear_arith)
                    requires
                        t < nt,
                        nt == (ni as int) / 3,
                ;
            }
            let base = 3 * t;
            let a = self.indices[base];
            let b = self.indices[base + 1];
            let c = self.indices[base + 2];

            let ghost e0 = entries@;
            insert_incidence(&mut entries, a, t);
            insert_incidence(&mut entries, b, t);
            insert_incidence(&mut entries, c, t);

            proof {
                let m = 3 * (t as int);
                assert forall|v: int|
                    0 <= v < nv implies ((#[trigger] entries@[v]) is Some <==> referenced_upto(
                    idx,
                    m + 3,
                    v as usize,
                )) by {
                    lemma_referenced_step(idx, t as int, v as usize);
                }
                assert forall|v: int, f: usize|
                    #![trigger slot_set(entries@, v).contains(f)]
                    0 <= v < nv implies (slot_set(entries@, v).contains(f) <==> incident_upto(
                    idx,
                    m + 3,
                    v as usize,
                    f,
                )) by {
                    lemma_incident_step(idx, t as int, v as usize, f);
                    assert(slot_set(e0, v).contains(f) <==> incident_upto(idx, m, v as usize, f));
                }
            }
            t = t + 1;
        }

        let result = IncidenceMap { entries };
        proof {
            assert(3 * (nt as int) == ni) by (nonlinear_arith)
                requires
                    nt == (ni as int) / 3,
                    (ni as int) % 3 == 0,
                    0 <= ni,
            ;
            assert forall|v: usize| #[trigger]
                spec_referenced(idx, v) implies (v as int) < nv by {
                let k = choose|k: int| 0 <= k < idx.len() && idx[k] == v;
                assert(idx[k] < self.spec_vertices().len());
            }
            let sm = spec_vertex_face_map(idx);
            assert forall|v: usize| #[trigger]
                result@.dom().contains(v) implies sm.dom().contains(v) && result@[v] == sm[v] by {
                assert(referenced_upto(idx, 3 * (nt as int), v));
                assert(spec_referenced(idx, v));
                assert forall|f: usize| #[trigger]
                    result@[v].contains(f) == sm[v].contains(f) by {
                    assert(result@[v] == slot_set(result.entries@, v as int));
                    assert(slot_set(result.entries@, v as int).contains(f) <==> incident_upto(
                        idx,
                        3 * (nt as int),
                        v,
                        f,
                    ));
                }
                assert(result@[v] =~= sm[v]);
            }
            assert forall|v: usize| #[trigger]
                sm.dom().contains(v) implies result@.dom().contains(v) by {
                assert(spec_referenced(idx, v));
                assert(referenced_upto(idx, 3 * (nt as int), v));
            }
            assert(result@ =~~= sm);
        }
        result
    }

    /// Builds the incidence map relating `origin` components to `incident`
    /// components. Only the vertex-to-vertex and vertex-to-face queries
    /// are implemented; every other combination is reported as
    /// unsupported, distinct from a successfully computed empty map.
    pub fn make_incidence_map(&self, origin: MeshComponent, incident: MeshComponent) -> (r: Result<
        IncidenceMap,
        UnsupportedIncidence,
    >)
        requires
            self.well_formed(),
        ensures
            match (origin, incident) {
                (MeshComponent::VERTEX, MeshComponent::VERTEX) => r matches Ok(m) && m@
                    == spec_vertex_vertex_map(self.spec_indices()) && m.wf(),
                (MeshComponent::VERTEX, MeshComponent::FACE) => r matches Ok(m) && m@
                    == spec_vertex_face_map(self.spec_indices()) && m.wf(),
                _ => r is Err,
            },
    {
        match (origin, incident) {
            (MeshComponent::VERTEX, MeshComponent::VERTEX) => Ok(self.build_vertex_vertex()),
            (MeshComponent::VERTEX, MeshComponent::FACE) => Ok(self.build_vertex_face()),
            _ => Err(UnsupportedIncidence),
        }
    }

    /// The three vertex indices of triangle `face_index`, in winding
    /// order: the slice of the index buffer at `3 * face_index`.
    pub fn get_face(&self, face_index: usize) -> (r: (usize, usize, usize))
        requires
            face_index < self.spec_indices().len() / 3,
        ensures
            r.0 == self.spec_indices()[3 * face_index as int],
            r.1 == self.spec_indices()[3 * face_index as int + 1],
            r.2 == self.spec_indices()[3 * face_index as int + 2],
    {
        let ni = self.indices.len();
        proof {
            assert(3 * (face_index as int) + 2 < ni) by (nonlinear_arith)
                requires
                    face_index < (ni as int) / 3,
            ;
        }
        let base = 3 * face_index;
        (self.indices[base], self.indices[base + 1], self.indices[base + 2])
    }
}

} // verus!
