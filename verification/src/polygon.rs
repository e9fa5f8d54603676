//! Polygons of the plane.
//!
//! A polygon is an ordered list of points; consecutive points (and the
//! last and first point) are connected by edges. Vertices are expected to
//! be listed counter-clockwise (CCW); holes would be listed clockwise.
//!
//! A vertex is *concave* (reflex) when the wedge of the edge into it and
//! the edge out of it is negative, that is, when the boundary turns
//! clockwise there. A polygon is convex when no vertex is concave; a turn
//! of exactly zero (collinear edges) counts as convex. The analysis
//! assumes the polygon is simple (not self-intersecting); it does not
//! verify that, and its results are meaningless otherwise.

use vstd::prelude::*;

use crate::common_properties::NormalMap;
use crate::property_map::PropertyStore;
use crate::property_map::PropertyType;
use crate::vector::COORD_LIMIT;
use crate::vector::Vec2l;
use crate::vector::in_coord_range2;
use crate::vector::lemma_mul_bound;

verus! {

/// Whether every point of the sequence lies within the coordinate range
/// accepted by the exact geometric predicates.
pub open spec fn all_in_coord_range(ps: Seq<Vec2l>) -> bool {
    forall|i: int| 0 <= i < ps.len() ==> in_coord_range2(#[trigger] ps[i])
}

/// The wedge of the edge into vertex `i` and the edge out of vertex `i`,
/// as an unbounded integer. Negative exactly when the boundary of a CCW
/// polygon turns clockwise at `i`.
pub open spec fn spec_turn(ps: Seq<Vec2l>, i: int) -> int {
    let n = ps.len() as int;
    let prev = if i == 0 {
        n - 1
    } else {
        i - 1
    };
    let next = if i + 1 == n {
        0
    } else {
        i + 1
    };
    let ax = ps[i].x - ps[prev].x;
    let ay = ps[i].y - ps[prev].y;
    let bx = ps[next].x - ps[i].x;
    let by = ps[next].y - ps[i].y;
    ax * by - ay * bx
}

/// Whether vertex `i` is concave: the local turn is strictly clockwise.
pub open spec fn spec_concave_at(ps: Seq<Vec2l>, i: int) -> bool {
    spec_turn(ps, i) < 0
}

/// Wraps an index in `[0, 2n)` back into `[0, n)`.
pub open spec fn wrap_index(i: int, n: int) -> usize {
    (if i < n {
        i
    } else {
        i - n
    }) as usize
}

/// The `k`-th entry of the fan triangulation of an `n`-gon with apex `s`:
/// the triangle `k / 3` is `(s, s + 1 + k/3, s + 2 + k/3)`, all indices
/// taken cyclically.
pub open spec fn fan_elem(s: int, n: int, k: int) -> usize {
    let t = k / 3;
    if k % 3 == 0 {
        s as usize
    } else if k % 3 == 1 {
        wrap_index(s + 1 + t, n)
    } else {
        wrap_index(s + 2 + t, n)
    }
}

/// Whether `v` is exactly the fan triangulation of an `n`-gon with apex `s`.
pub open spec fn is_fan(v: Seq<usize>, s: int, n: int) -> bool {
    &&& v.len() == 3 * (n - 2)
    &&& forall|k: int| 0 <= k < v.len() ==> #[trigger] v[k] == fan_elem(s, n, k)
}

/// What triangulation yields for a point sequence: `None` for fewer than
/// three points or two or more concave vertices; otherwise the fan from
/// vertex 0 (no concave vertex) or from the single concave vertex.
pub open spec fn triangulation_post(ps: Seq<Vec2l>, r: Option<Seq<usize>>) -> bool {
    let n = ps.len() as int;
    match r {
        None => n < 3 || exists|i: int, j: int|
            0 <= i < j < n && spec_concave_at(ps, i) && spec_concave_at(ps, j),
        Some(v) => n >= 3 && if (forall|i: int| 0 <= i < n ==> !spec_concave_at(ps, i)) {
            is_fan(v, 0, n)
        } else {
            exists|s: int|
                {
                    &&& 0 <= s < n
                    &&& #[trigger] spec_concave_at(ps, s)
                    &&& forall|i: int| 0 <= i < n && i != s ==> !spec_concave_at(ps, i)
                    &&& is_fan(v, s, n)
                }
        },
    }
}

/// Law: the triangulation contract determines one result per point
/// sequence — triangulating the same points twice yields the identical
/// index sequence, and failure is likewise determined by the points.
pub proof fn lemma_triangulation_deterministic(
    ps: Seq<Vec2l>,
    r1: Option<Seq<usize>>,
    r2: Option<Seq<usize>>,
)
    requires
        triangulation_post(ps, r1),
        triangulation_post(ps, r2),
    ensures
        r1 == r2,
{
    let n = ps.len() as int;
    match (r1, r2) {
        (None, None) => {},
        (Some(v1), Some(v2)) => {
            if forall|i: int| 0 <= i < n ==> !spec_concave_at(ps, i) {
                assert(is_fan(v1, 0, n) && is_fan(v2, 0, n));
                assert(v1 =~= v2);
            } else {
                let s1 = choose|s: int|
                    {
                        &&& 0 <= s < n
                        &&& #[trigger] spec_concave_at(ps, s)
                        &&& forall|i: int| 0 <= i < n && i != s ==> !spec_concave_at(ps, i)
                        &&& is_fan(v1, s, n)
                    };
                let s2 = choose|s: int|
                    {
                        &&& 0 <= s < n
                        &&& #[trigger] spec_concave_at(ps, s)
                        &&& forall|i: int| 0 <= i < n && i != s ==> !spec_concave_at(ps, i)
                        &&& is_fan(v2, s, n)
                    };
                assert(s1 == s2);
                assert(v1 =~= v2);
            }
        },
        (None, Some(v2)) => {
            lemma_triangulation_unambiguous(ps, v2);
        },
        (Some(v1), None) => {
            lemma_triangulation_unambiguous(ps, v1);
        },
    }
}

/// A point sequence cannot both triangulate successfully and meet the
/// failure condition: success needs three or more points and at most one
/// concave vertex.
proof fn lemma_triangulation_unambiguous(ps: Seq<Vec2l>, v: Seq<usize>)
    requires
        triangulation_post(ps, Some(v)),
    ensures
        !triangulation_post(ps, None::<Seq<usize>>),
{
    let n = ps.len() as int;
    assert(n >= 3);
    if exists|i: int, j: int| 0 <= i < j < n && spec_concave_at(ps, i) && spec_concave_at(ps, j) {
        let (i, j) = choose|i: int, j: int|
            0 <= i < j < n && spec_concave_at(ps, i) && spec_concave_at(ps, j);
        if forall|k: int| 0 <= k < n ==> !spec_concave_at(ps, k) {
            assert(!spec_concave_at(ps, i));
        } else {
            let s = choose|s: int|
                {
                    &&& 0 <= s < n
                    &&& #[trigger] spec_concave_at(ps, s)
                    &&& forall|k: int| 0 <= k < n && k != s ==> !spec_concave_at(ps, k)
                    &&& is_fan(v, s, n)
                };
            assert(i == s && j == s);
        }
    }
}

/// Law: a vertex where the incoming and outgoing edges are collinear
/// (zero wedge) is not concave; collinear turns count as convex.
pub proof fn lemma_collinear_turn_is_convex(ps: Seq<Vec2l>, i: int)
    requires
        0 <= i < ps.len(),
        spec_turn(ps, i) == 0,
    ensures
        !spec_concave_at(ps, i),
{
}

/// Law: the fan triangulation of an `n`-gon consists of exactly `n - 2`
/// index triples, every emitted index names a vertex of the polygon, and
/// every vertex of the polygon appears in some triple. Together with the
/// contract of [`Polygon::triangulate`], which returns the fan with apex 0
/// for a polygon of three or more points and no concave vertex, this says
/// such a polygon is triangulated into exactly `n - 2` triangles covering
/// all of its vertices.
pub proof fn lemma_fan_triangulation_covers(v: Seq<usize>, s: int, n: int)
    requires
        3 <= n,
        0 <= s < n,
        is_fan(v, s, n),
    ensures
        v.len() == 3 * (n - 2),
        forall|k: int| 0 <= k < v.len() ==> (#[trigger] v[k]) < n,
        forall|j: int| 0 <= j < n ==> v.contains(#[trigger] (j as usize)),
{
    assert forall|k: int| 0 <= k < v.len() implies (#[trigger] v[k]) < n by {
        assert(0 <= k / 3 <= n - 3) by (nonlinear_arith)
            requires
                0 <= k,
                k < 3 * (n - 2),
        ;
        assert(v[k] == fan_elem(s, n, k));
    }
    assert forall|j: int| 0 <= j < n implies v.contains(#[trigger] (j as usize)) by {
        if j == s {
            assert(v[0] == fan_elem(s, n, 0));
            assert(fan_elem(s, n, 0) == s as usize);
            assert(v[0] == j as usize);
        } else {
            let d = if j > s {
                j - s
            } else {
                j + n - s
            };
            assert(1 <= d <= n - 1);
            if d == 1 {
                assert(v[1] == fan_elem(s, n, 1));
                assert(fan_elem(s, n, 1) == wrap_index(s + 1, n));
                assert(v[1] == j as usize);
            } else {
                let k = 3 * (d - 2) + 2;
                assert(0 <= k < 3 * (n - 2)) by (nonlinear_arith)
                    requires
                        k == 3 * (d - 2) + 2,
                        2 <= d <= n - 1,
                ;
                assert(k / 3 == d - 2 && k % 3 == 2) by (nonlinear_arith)
                    requires
                        k == 3 * (d - 2) + 2,
                        2 <= d,
                ;
                assert(v[k] == fan_elem(s, n, k));
                assert(fan_elem(s, n, k) == wrap_index(s + d, n));
                assert(v[k] == j as usize);
            }
        }
    }
}

/// An ordered, cyclic sequence of points in the plane. The view is the
/// point sequence in boundary order.
pub struct Polygon {
    points: Vec<Vec2l>,
    vertex_properties: PropertyStore<Vec2l>,
}

impl View for Polygon {
    type V = Seq<Vec2l>;

    closed spec fn view(&self) -> Seq<Vec2l> {
        self.points@
    }
}

impl Polygon {
    /// The per-vertex attribute store.
    pub closed spec fn spec_vertex_properties(&self) -> PropertyStore<Vec2l> {
        self.vertex_properties
    }

    /// Builds an empty polygon.
    pub fn new() -> (r: Self)
        ensures
            r@ == Seq::<Vec2l>::empty(),
            forall|pt: PropertyType| !(#[trigger] r.spec_vertex_properties().has(pt)),
    {
        Polygon { points: Vec::new(), vertex_properties: PropertyStore::new() }
    }

    /// Builds an empty polygon with room for `capacity` points.
    pub fn with_capacity(capacity: usize) -> (r: Self)
        ensures
            r@ == Seq::<Vec2l>::empty(),
            forall|pt: PropertyType| !(#[trigger] r.spec_vertex_properties().has(pt)),
    {
        Polygon { points: Vec::with_capacity(capacity), vertex_properties: PropertyStore::new() }
    }

    /// Adds a fresh, empty per-vertex property collection of the given
    /// kind. Reports `false` without changing anything when the kind is
    /// already present or has no registered container.
    pub fn add_vertex_property(&mut self, property_type: PropertyType) -> (added: bool)
        ensures
            final(self)@ == old(self)@,
            added == (property_type == PropertyType::NORMAL
                && !old(self).spec_vertex_properties().has(PropertyType::NORMAL)),
            added ==> final(self).spec_vertex_properties().has(property_type) && final(
                self).spec_vertex_properties().map_view(property_type) == Seq::<
                Option<Vec2l>,
            >::empty(),
            !added ==> final(self).spec_vertex_properties() == old(self).spec_vertex_properties(),
    {
        self.vertex_properties.add_property_map(property_type)
    }

    /// The per-vertex property collection of the given kind, or `None`
    /// when that kind was never added.
    pub fn get_vertex_property(&mut self, property_type: PropertyType) -> (r: Option<
        &mut NormalMap<Vec2l>,
    >)
        ensures
            final(self)@ == old(self)@,
            match r {
                Some(m) => {
                    &&& old(self).spec_vertex_properties().has(property_type)
                    &&& property_type == PropertyType::NORMAL
                    &&& m@ == old(self).spec_vertex_properties().map_view(property_type)
                    &&& final(self).spec_vertex_properties().has(property_type)
                    &&& final(self).spec_vertex_properties().map_view(property_type) == final(m)@
                },
                None => *final(self) == *old(self) && !old(self).spec_vertex_properties().has(
                    property_type,
                ),
            },
    {
        self.vertex_properties.get_property_map(property_type)
    }

    /// The points of the polygon, in boundary order.
    pub fn get_points(&self) -> (r: &Vec<Vec2l>)
        ensures
            r@ == self@,
    {
        &self.points
    }

    /// Adds one vertex to the end of the list of vertices of the polygon.
    pub fn push(&mut self, point: Vec2l)
        ensures
            final(self)@ == old(self)@.push(point),
            final(self).spec_vertex_properties() == old(self).spec_vertex_properties(),
    {
        self.points.push(point);
    }

    /// Adds a list of vertices to the end of the list of vertices of the
    /// polygon.
    pub fn push_vector(&mut self, points: Vec<Vec2l>)
        ensures
            final(self)@ == old(self)@ + points@,
            final(self).spec_vertex_properties() == old(self).spec_vertex_properties(),
    {
        let n = points.len();
        let mut i: usize = 0;
        while i < n
            invariant
                n == points@.len(),
                0 <= i <= n,
                self@ == old(self)@ + points@.subrange(0, i as int),
                self.spec_vertex_properties() == old(self).spec_vertex_properties(),
            decreases n - i,
        {
            self.push(points[i]);
            proof {
                assert(old(self)@ + points@.subrange(0, i + 1 as int) == (old(self)@
                    + points@.subrange(0, i as int)).push(points@[i as int]));
            }
            i = i + 1;
        }
        proof {
            assert(points@.subrange(0, n as int) == points@);
        }
    }

    /// Returns the indices of all concave (reflex) vertices, in increasing
    /// order, or `None` when the polygon has fewer than three points.
    pub fn get_concave_vertices(&self) -> (r: Option<Vec<usize>>)
        requires
            all_in_coord_range(self@),
        ensures
            match r {
                None => self@.len() < 3,
                Some(v) => {
                    &&& self@.len() >= 3
                    &&& forall|a: int, b: int| 0 <= a < b < v@.len() ==> v@[a] < v@[b]
                    &&& forall|j: int|
                        0 <= j < v@.len() ==> (#[trigger] v@[j]) < self@.len() && spec_concave_at(
                            self@,
                            v@[j] as int,
                        )
                    &&& forall|i: int|
                        0 <= i < self@.len() && spec_concave_at(self@, i) ==> v@.contains(
                            i as usize,
                        )
                },
            },
    {
        let mut concave: Vec<usize> = Vec::new();

        if self.points.len() < 3 {
            return None;
        }

        let size = self.points.len();
        let mut last_point = self.points[0];
        let first_back = self.points[size - 1];
        let mut ex = last_point.x() - first_back.x();
        let mut ey = last_point.y() - first_back.y();

        let mut i: usize = 0;
        while i < size
            invariant
                size == self@.len(),
                3 <= size,
                all_in_coord_range(self@),
                0 <= i <= size,
                last_point == self@[if i == size {
                    0int
                } else {
                    i as int
                }],
                i < size ==> {
                    let n = size as int;
                    let prev = if i == 0 {
                        n - 1
                    } else {
                        i - 1
                    };
                    ex == self@[i as int].x - self@[prev].x && ey == self@[i as int].y
                        - self@[prev].y
                },
                forall|a: int, b: int| 0 <= a < b < concave@.len() ==> concave@[a] < concave@[b],
                forall|j: int|
                    0 <= j < concave@.len() ==> (#[trigger] concave@[j]) < i && spec_concave_at(
                        self@,
                        concave@[j] as int,
                    ),
                forall|k: int|
                    0 <= k < i && spec_concave_at(self@, k) ==> concave@.contains(k as usize),
            decreases size - i,
        {
            let next_idx = if i + 1 == size {
                0
            } else {
                i + 1
            };
            let next_p = self.points[next_idx];

            proof {
                assert(in_coord_range2(self@[next_idx as int]));
                assert(in_coord_range2(self@[i as int]));
                lemma_mul_bound(ex as int, (next_p.y - last_point.y) as int, 2 * COORD_LIMIT);
                lemma_mul_bound(ey as int, (next_p.x - last_point.x) as int, 2 * COORD_LIMIT);
            }
            let nex = next_p.x() - last_point.x();
            let ney = next_p.y() - last_point.y();

            let turn: i128 = (ex as i128) * (ney as i128) - (ey as i128) * (nex as i128);
            assert(turn == spec_turn(self@, i as int));
            let ghost pre = concave@;
            if turn < 0 {
                concave.push(i);
            }
            proof {
                if turn < 0 {
                    assert forall|k: int| 0 <= k < i + 1 && spec_concave_at(self@, k)
                        implies concave@.contains(k as usize) by {
                        if k < i {
                            let j = choose|j: int| 0 <= j < pre.len() && pre[j] == k as usize;
                            assert(concave@[j] == k as usize);
                        } else {
                            assert(concave@[concave@.len() - 1] == i as usize);
                        }
                    }
                } else {
                    assert(!spec_concave_at(self@, i as int));
                }
            }

            ex = nex;
            ey = ney;
            last_point = next_p;
            i = i + 1;
        }

        Some(concave)
    }

    /// Reports whether the polygon is convex: no vertex is concave, where
    /// a collinear (zero-wedge) turn counts as convex. `None` when the
    /// polygon has fewer than three points.
    pub fn is_convex(&self) -> (r: Option<bool>)
        requires
            all_in_coord_range(self@),
        ensures
            match r {
                None => self@.len() < 3,
                Some(b) => self@.len() >= 3 && (b <==> forall|i: int|
                    0 <= i < self@.len() ==> !spec_concave_at(self@, i)),
            },
    {
        if self.points.len() < 3 {
            return None;
        }

        let size = self.points.len();
        let mut last_point = self.points[0];
        let first_back = self.points[size - 1];
        let mut ex = last_point.x() - first_back.x();
        let mut ey = last_point.y() - first_back.y();

        let mut i: usize = 0;
        while i < size
            invariant
                size == self@.len(),
                3 <= size,
                all_in_coord_range(self@),
                0 <= i <= size,
                last_point == self@[if i == size {
                    0int
                } else {
                    i as int
                }],
                i < size ==> {
                    let n = size as int;
                    let prev = if i == 0 {
                        n - 1
                    } else {
                        i - 1
                    };
                    ex == self@[i as int].x - self@[prev].x && ey == self@[i as int].y
                        - self@[prev].y
                },
                forall|k: int| 0 <= k < i ==> !spec_concave_at(self@, k),
            decreases size - i,
        {
            let next_idx = if i + 1 == size {
                0
            } else {
                i + 1
            };
            let next_p = self.points[next_idx];

            proof {
                assert(in_coord_range2(self@[next_idx as int]));
                assert(in_coord_range2(self@[i as int]));
                lemma_mul_bound(ex as int, (next_p.y - last_point.y) as int, 2 * COORD_LIMIT);
                lemma_mul_bound(ey as int, (next_p.x - last_point.x) as int, 2 * COORD_LIMIT);
            }
            let nex = next_p.x() - last_point.x();
            let ney = next_p.y() - last_point.y();

            let turn: i128 = (ex as i128) * (ney as i128) - (ey as i128) * (nex as i128);
            assert(turn == spec_turn(self@, i as int));
            if turn < 0 {
                assert(spec_concave_at(self@, i as int));
                return Some(false);
            }

            ex = nex;
            ey = ney;
            last_point = next_p;
            i = i + 1;
        }

        Some(true)
    }

    /// Appends the fan triangulation of the polygon with apex `start` to
    /// `indices`: for an `n`-gon it emits `n - 2` index triples, each
    /// `(start, start + 1 + t, start + 2 + t)` taken cyclically.
    fn triangulate_convex(&self, indices: &mut Vec<usize>, start: usize)
        requires
            3 <= self@.len(),
            start < self@.len(),
            old(indices)@.len() == 0,
        ensures
            is_fan(final(indices)@, start as int, self@.len() as int),
    {
        let size = self.points.len();
        let ghost n = size as int;
        let ghost s = start as int;

        let mut next_idx = if start + 1 == size {
            0
        } else {
            start + 1
        };

        let mut i: usize = 0;
        while i < size - 2
            invariant
                size == self@.len(),
                3 <= size,
                start < size,
                n == size as int,
                s == start as int,
                0 <= i <= size - 2,
                next_idx == wrap_index(s + 1 + i, n),
                indices@.len() == 3 * i,
                forall|k: int| 0 <= k < indices@.len() ==> #[trigger] indices@[k] == fan_elem(
                    s,
                    n,
                    k,
                ),
            decreases size - 2 - i,
        {
            let next_next_idx = if next_idx + 1 == size {
                0
            } else {
                next_idx + 1
            };
            proof {
                assert(next_next_idx == wrap_index(s + 2 + i, n));
            }

            indices.push(start);
            indices.push(next_idx);
            indices.push(next_next_idx);

            proof {
                let m = 3 * (i as int);
                assert((m + 0) / 3 == i && (m + 0) % 3 == 0 && (m + 1) / 3 == i && (m + 1) % 3 == 1
                    && (m + 2) / 3 == i && (m + 2) % 3 == 2) by (nonlinear_arith)
                    requires
                        m == 3 * (i as int),
                        0 <= i,
                ;
                assert(indices@[m] == fan_elem(s, n, m));
                assert(indices@[m + 1] == fan_elem(s, n, m + 1));
                assert(indices@[m + 2] == fan_elem(s, n, m + 2));
            }

            next_idx = next_next_idx;
            i = i + 1;
        }
    }

    /// Splits the polygon into triangles: a flat list of indices into the
    /// point sequence, each consecutive triple one triangle of the
    /// triangulation. A polygon without concave vertices is fanned from
    /// vertex 0; a polygon with exactly one concave vertex is fanned from
    /// that vertex; with fewer than three points or two or more concave
    /// vertices, `None` is returned.
    pub fn triangulate(&self) -> (r: Option<Vec<usize>>)
        requires
            all_in_coord_range(self@),
        ensures
            triangulation_post(
                self@,
                match r {
                    None => None,
                    Some(v) => Some(v@),
                },
            ),
    {
        let mut indices: Vec<usize> = Vec::new();
        let size = self.points.len();
        proof {
            assert(self@.len() == size);
        }

        let concave_vertices = match self.get_concave_vertices() {
            None => {
                return None;
            },
            Some(v) => v,
        };

        let nr_of_concave_vertices = concave_vertices.len();
        if nr_of_concave_vertices == 0 {
            self.triangulate_convex(&mut indices, 0);
            proof {
                assert forall|i: int| 0 <= i < self@.len() implies !spec_concave_at(self@, i) by {
                    if spec_concave_at(self@, i) {
                        assert(concave_vertices@.contains(i as usize));
                    }
                }
            }
        } else if nr_of_concave_vertices == 1 {
            let concave_vertex = concave_vertices[0];
            self.triangulate_convex(&mut indices, concave_vertex);
            proof {
                let s = concave_vertex as int;
                assert(spec_concave_at(self@, s));
                assert forall|i: int|
                    0 <= i < self@.len() && i != s implies !spec_concave_at(self@, i) by {
                    if spec_concave_at(self@, i) {
                        assert(0 <= i < size);
                        assert(concave_vertices@.contains(i as usize));
                        let j = choose|j: int|
                            0 <= j < concave_vertices@.len() && concave_vertices@[j] == i as usize;
                        assert(j == 0);
                        assert(concave_vertices@[0] == concave_vertex);
                        assert(i as usize as int == i);
                        assert(i == s);
                    }
                }
            }
        } else {
            proof {
                assert(concave_vertices@[0] < concave_vertices@[1]);
            }
            return None;
        }

        Some(indices)
    }
}

} // verus!

