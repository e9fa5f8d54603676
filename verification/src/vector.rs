//! Fixed-size integer vectors: points and directions of the plane and of
//! space.
//!
//! `Vec2l` and `Vec3l` carry 64-bit integer coordinates and provide the
//! vector capability the kernel builds on: addition, subtraction, scaling,
//! dot product and wedge product (the signed parallelogram area in the
//! plane, the cross product in space). All operations are exact; each
//! carries a precondition ruling out 64-bit overflow.

use vstd::prelude::*;

verus! {

/// The largest coordinate magnitude the geometric products accept
/// without risking overflow of their 128-bit intermediates.
pub const COORD_LIMIT: i64 = 0x3fff_ffff_ffff_ffff;

/// A two-dimensional vector with 64-bit integer coordinates.
#[derive(Clone, Copy, PartialEq, Eq, Structural, Debug)]
pub struct Vec2l {
    pub x: i64,
    pub y: i64,
}

/// Whether both coordinates are small enough for products of coordinates
/// to stay within the kernel's 128-bit intermediate arithmetic.
pub open spec fn in_coord_range2(v: Vec2l) -> bool {
    &&& -COORD_LIMIT <= v.x <= COORD_LIMIT
    &&& -COORD_LIMIT <= v.y <= COORD_LIMIT
}

/// Whether all three coordinates are small enough for products of
/// coordinates to stay within 128-bit intermediate arithmetic.
pub open spec fn in_coord_range3(v: Vec3l) -> bool {
    &&& -COORD_LIMIT <= v.x <= COORD_LIMIT
    &&& -COORD_LIMIT <= v.y <= COORD_LIMIT
    &&& -COORD_LIMIT <= v.z <= COORD_LIMIT
}

/// The product of two integers of magnitude at most `b` has magnitude at
/// most `b * b`.
pub proof fn lemma_mul_bound(x: int, y: int, b: int)
    requires
        0 <= b,
        -b <= x <= b,
        -b <= y <= b,
    ensures
        -(b * b) <= x * y <= b * b,
{
    assert(-(b * b) <= x * y <= b * b) by (nonlinear_arith)
        requires
            0 <= b,
            -b <= x <= b,
            -b <= y <= b,
    ;
}

/// A three-dimensional vector with 64-bit integer coordinates.
#[derive(Clone, Copy, PartialEq, Eq, Structural, Debug)]
pub struct Vec3l {
    pub x: i64,
    pub y: i64,
    pub z: i64,
}

/// The dot product of two plane vectors, as an unbounded integer.
pub open spec fn spec_dot2(a: Vec2l, b: Vec2l) -> int {
    a.x * b.x + a.y * b.y
}

/// The wedge product (signed parallelogram area) of two plane vectors,
/// as an unbounded integer. Positive when `b` lies counter-clockwise of
/// `a`, negative when clockwise, zero when the two are collinear.
pub open spec fn spec_wedge2(a: Vec2l, b: Vec2l) -> int {
    a.x * b.y - a.y * b.x
}

impl Vec2l {
    /// Builds the vector `(x, y)`.
    pub fn new(x: i64, y: i64) -> (r: Self)
        ensures
            r == (Vec2l { x, y }),
    {
        Vec2l { x, y }
    }

    /// The first coordinate.
    pub fn x(&self) -> (r: i64)
        ensures
            r == self.x,
    {
        self.x
    }

    /// The second coordinate.
    pub fn y(&self) -> (r: i64)
        ensures
            r == self.y,
    {
        self.y
    }

    /// The dot product of `a` and `b`.
    pub fn dot(a: Self, b: Self) -> (r: i64)
        requires
            in_coord_range2(a),
            in_coord_range2(b),
            i64::MIN <= spec_dot2(a, b) <= i64::MAX,
        ensures
            r == spec_dot2(a, b),
    {
        proof {
            lemma_mul_bound(a.x as int, b.x as int, COORD_LIMIT as int);
            lemma_mul_bound(a.y as int, b.y as int, COORD_LIMIT as int);
        }
        let d: i128 = (a.x as i128) * (b.x as i128) + (a.y as i128) * (b.y as i128);
        d as i64
    }

    /// The wedge product of `a` and `b`.
    pub fn wedge(a: Self, b: Self) -> (r: i64)
        requires
            in_coord_range2(a),
            in_coord_range2(b),
            i64::MIN <= spec_wedge2(a, b) <= i64::MAX,
        ensures
            r == spec_wedge2(a, b),
    {
        proof {
            lemma_mul_bound(a.x as int, b.y as int, COORD_LIMIT as int);
            lemma_mul_bound(a.y as int, b.x as int, COORD_LIMIT as int);
        }
        let w: i128 = (a.x as i128) * (b.y as i128) - (a.y as i128) * (b.x as i128);
        w as i64
    }
}

impl core::ops::Add for Vec2l {
    type Output = Vec2l;

    fn add(self, other: Vec2l) -> Vec2l {
        Vec2l { x: self.x + other.x, y: self.y + other.y }
    }
}

impl vstd::std_specs::ops::AddSpecImpl for Vec2l {
    open spec fn obeys_add_spec() -> bool {
        true
    }

    open spec fn add_req(self, other: Vec2l) -> bool {
        &&& i64::MIN <= self.x + other.x <= i64::MAX
        &&& i64::MIN <= self.y + other.y <= i64::MAX
    }

    open spec fn add_spec(self, other: Vec2l) -> Vec2l {
        Vec2l { x: (self.x + other.x) as i64, y: (self.y + other.y) as i64 }
    }
}

impl core::ops::Sub for Vec2l {
    type Output = Vec2l;

    fn sub(self, other: Vec2l) -> Vec2l {
        Vec2l { x: self.x - other.x, y: self.y - other.y }
    }
}

impl vstd::std_specs::ops::SubSpecImpl for Vec2l {
    open spec fn obeys_sub_spec() -> bool {
        true
    }

    open spec fn sub_req(self, other: Vec2l) -> bool {
        &&& i64::MIN <= self.x - other.x <= i64::MAX
        &&& i64::MIN <= self.y - other.y <= i64::MAX
    }

    open spec fn sub_spec(self, other: Vec2l) -> Vec2l {
        Vec2l { x: (self.x - other.x) as i64, y: (self.y - other.y) as i64 }
    }
}

impl core::ops::Mul<i64> for Vec2l {
    type Output = Vec2l;

    fn mul(self, other: i64) -> Vec2l {
        Vec2l { x: self.x * other, y: self.y * other }
    }
}

impl vstd::std_specs::ops::MulSpecImpl<i64> for Vec2l {
    open spec fn obeys_mul_spec() -> bool {
        true
    }

    open spec fn mul_req(self, other: i64) -> bool {
        &&& i64::MIN <= self.x * other <= i64::MAX
        &&& i64::MIN <= self.y * other <= i64::MAX
    }

    open spec fn mul_spec(self, other: i64) -> Vec2l {
        Vec2l { x: (self.x * other) as i64, y: (self.y * other) as i64 }
    }
}

/// A two-dimensional vector with 32-bit integer coordinates.
#[derive(Clone, Copy, PartialEq, Eq, Structural, Debug)]
pub struct Vec2i {
    pub x: i32,
    pub y: i32,
}

/// A three-dimensional vector with 32-bit integer coordinates.
#[derive(Clone, Copy, PartialEq, Eq, Structural, Debug)]
pub struct Vec3i {
    pub x: i32,
    pub y: i32,
    pub z: i32,
}

/// The dot product of two 32-bit plane vectors, as an unbounded integer.
pub open spec fn spec_dot2i(a: Vec2i, b: Vec2i) -> int {
    a.x * b.x + a.y * b.y
}

/// The wedge product of two 32-bit plane vectors, as an unbounded
/// integer.
pub open spec fn spec_wedge2i(a: Vec2i, b: Vec2i) -> int {
    a.x * b.y - a.y * b.x
}

impl Vec2i {
    /// Builds the vector `(x, y)`.
    pub fn new(x: i32, y: i32) -> (r: Self)
        ensures
            r == (Vec2i { x, y }),
    {
        Vec2i { x, y }
    }

    /// The first coordinate.
    pub fn x(&self) -> (r: i32)
        ensures
            r == self.x,
    {
        self.x
    }

    /// The second coordinate.
    pub fn y(&self) -> (r: i32)
        ensures
            r == self.y,
    {
        self.y
    }

    /// The dot product of `a` and `b`.
    pub fn dot(a: Self, b: Self) -> (r: i32)
        requires
            i32::MIN <= spec_dot2i(a, b) <= i32::MAX,
        ensures
            r == spec_dot2i(a, b),
    {
        proof {
            lemma_mul_bound(a.x as int, b.x as int, 0x8000_0000);
            lemma_mul_bound(a.y as int, b.y as int, 0x8000_0000);
        }
        let d: i64 = (a.x as i64) * (b.x as i64) + (a.y as i64) * (b.y as i64);
        d as i32
    }

    /// The wedge product of `a` and `b`.
    pub fn wedge(a: Self, b: Self) -> (r: i32)
        requires
            i32::MIN <= spec_wedge2i(a, b) <= i32::MAX,
        ensures
            r == spec_wedge2i(a, b),
    {
        proof {
            lemma_mul_bound(a.x as int, b.y as int, 0x8000_0000);
            lemma_mul_bound(a.y as int, b.x as int, 0x8000_0000);
        }
        let w: i64 = (a.x as i64) * (b.y as i64) - (a.y as i64) * (b.x as i64);
        w as i32
    }
}

impl core::ops::Add for Vec2i {
    type Output = Vec2i;

    fn add(self, other: Vec2i) -> Vec2i {
        Vec2i { x: self.x + other.x, y: self.y + other.y }
    }
}

impl vstd::std_specs::ops::AddSpecImpl for Vec2i {
    open spec fn obeys_add_spec() -> bool {
        true
    }

    open spec fn add_req(self, other: Vec2i) -> bool {
        &&& i32::MIN <= self.x + other.x <= i32::MAX
        &&& i32::MIN <= self.y + other.y <= i32::MAX
    }

    open spec fn add_spec(self, other: Vec2i) -> Vec2i {
        Vec2i { x: (self.x + other.x) as i32, y: (self.y + other.y) as i32 }
    }
}

impl core::ops::Sub for Vec2i {
    type Output = Vec2i;

    fn sub(self, other: Vec2i) -> Vec2i {
        Vec2i { x: self.x - other.x, y: self.y - other.y }
    }
}

impl vstd::std_specs::ops::SubSpecImpl for Vec2i {
    open spec fn obeys_sub_spec() -> bool {
        true
    }

    open spec fn sub_req(self, other: Vec2i) -> bool {
        &&& i32::MIN <= self.x - other.x <= i32::MAX
        &&& i32::MIN <= self.y - other.y <= i32::MAX
    }

    open spec fn sub_spec(self, other: Vec2i) -> Vec2i {
        Vec2i { x: (self.x - other.x) as i32, y: (self.y - other.y) as i32 }
    }
}

impl core::ops::Mul<i32> for Vec2i {
    type Output = Vec2i;

    fn mul(self, other: i32) -> Vec2i {
        Vec2i { x: self.x * other, y: self.y * other }
    }
}

impl vstd::std_specs::ops::MulSpecImpl<i32> for Vec2i {
    open spec fn obeys_mul_spec() -> bool {
        true
    }

    open spec fn mul_req(self, other: i32) -> bool {
        &&& i32::MIN <= self.x * other <= i32::MAX
        &&& i32::MIN <= self.y * other <= i32::MAX
    }

    open spec fn mul_spec(self, other: i32) -> Vec2i {
        Vec2i { x: (self.x * other) as i32, y: (self.y * other) as i32 }
    }
}

/// The dot product of two 32-bit space vectors, as an unbounded integer.
pub open spec fn spec_dot3i(a: Vec3i, b: Vec3i) -> int {
    a.x * b.x + a.y * b.y + a.z * b.z
}

/// The cross product of two 32-bit space vectors, coordinate by
/// coordinate, as unbounded integers.
pub open spec fn spec_cross3i(a: Vec3i, b: Vec3i) -> (int, int, int) {
    (a.y * b.z - a.z * b.y, a.z * b.x - a.x * b.z, a.x * b.y - a.y * b.x)
}

impl Vec3i {
    /// Builds the vector `(x, y, z)`.
    pub fn new(x: i32, y: i32, z: i32) -> (r: Self)
        ensures
            r == (Vec3i { x, y, z }),
    {
        Vec3i { x, y, z }
    }

    /// The first coordinate.
    pub fn x(&self) -> (r: i32)
        ensures
            r == self.x,
    {
        self.x
    }

    /// The second coordinate.
    pub fn y(&self) -> (r: i32)
        ensures
            r == self.y,
    {
        self.y
    }

    /// The third coordinate.
    pub fn z(&self) -> (r: i32)
        ensures
            r == self.z,
    {
        self.z
    }

    /// The dot product of `a` and `b`.
    pub fn dot(a: Self, b: Self) -> (r: i32)
        requires
            i32::MIN <= spec_dot3i(a, b) <= i32::MAX,
        ensures
            r == spec_dot3i(a, b),
    {
        proof {
            lemma_mul_bound(a.x as int, b.x as int, 0x8000_0000);
            lemma_mul_bound(a.y as int, b.y as int, 0x8000_0000);
            lemma_mul_bound(a.z as int, b.z as int, 0x8000_0000);
        }
        let d: i128 = (a.x as i128) * (b.x as i128) + (a.y as i128) * (b.y as i128) + (a.z
            as i128) * (b.z as i128);
        d as i32
    }

    /// The wedge (cross) product of `a` and `b`.
    pub fn wedge(a: Self, b: Self) -> (r: Self)
        requires
            i32::MIN <= spec_cross3i(a, b).0 <= i32::MAX,
            i32::MIN <= spec_cross3i(a, b).1 <= i32::MAX,
            i32::MIN <= spec_cross3i(a, b).2 <= i32::MAX,
        ensures
            r.x == spec_cross3i(a, b).0,
            r.y == spec_cross3i(a, b).1,
            r.z == spec_cross3i(a, b).2,
    {
        proof {
            lemma_mul_bound(a.y as int, b.z as int, 0x8000_0000);
            lemma_mul_bound(a.z as int, b.y as int, 0x8000_0000);
            lemma_mul_bound(a.z as int, b.x as int, 0x8000_0000);
            lemma_mul_bound(a.x as int, b.z as int, 0x8000_0000);
            lemma_mul_bound(a.x as int, b.y as int, 0x8000_0000);
            lemma_mul_bound(a.y as int, b.x as int, 0x8000_0000);
        }
        let x: i64 = (a.y as i64) * (b.z as i64) - (a.z as i64) * (b.y as i64);
        let y: i64 = (a.z as i64) * (b.x as i64) - (a.x as i64) * (b.z as i64);
        let z: i64 = (a.x as i64) * (b.y as i64) - (a.y as i64) * (b.x as i64);
        Vec3i { x: x as i32, y: y as i32, z: z as i32 }
    }
}

impl core::ops::Add for Vec3i {
    type Output = Vec3i;

    fn add(self, other: Vec3i) -> Vec3i {
        Vec3i { x: self.x + other.x, y: self.y + other.y, z: self.z + other.z }
    }
}

impl vstd::std_specs::ops::AddSpecImpl for Vec3i {
    open spec fn obeys_add_spec() -> bool {
        true
    }

    open spec fn add_req(self, other: Vec3i) -> bool {
        &&& i32::MIN <= self.x + other.x <= i32::MAX
        &&& i32::MIN <= self.y + other.y <= i32::MAX
        &&& i32::MIN <= self.z + other.z <= i32::MAX
    }

    open spec fn add_spec(self, other: Vec3i) -> Vec3i {
        Vec3i {
            x: (self.x + other.x) as i32,
            y: (self.y + other.y) as i32,
            z: (self.z + other.z) as i32,
        }
    }
}

impl core::ops::Sub for Vec3i {
    type Output = Vec3i;

    fn sub(self, other: Vec3i) -> Vec3i {
        Vec3i { x: self.x - other.x, y: self.y - other.y, z: self.z - other.z }
    }
}

impl vstd::std_specs::ops::SubSpecImpl for Vec3i {
    open spec fn obeys_sub_spec() -> bool {
        true
    }

    open spec fn sub_req(self, other: Vec3i) -> bool {
        &&& i32::MIN <= self.x - other.x <= i32::MAX
        &&& i32::MIN <= self.y - other.y <= i32::MAX
        &&& i32::MIN <= self.z - other.z <= i32::MAX
    }

    open spec fn sub_spec(self, other: Vec3i) -> Vec3i {
        Vec3i {
            x: (self.x - other.x) as i32,
            y: (self.y - other.y) as i32,
            z: (self.z - other.z) as i32,
        }
    }
}

impl core::ops::Mul<i32> for Vec3i {
    type Output = Vec3i;

    fn mul(self, other: i32) -> Vec3i {
        Vec3i { x: self.x * other, y: self.y * other, z: self.z * other }
    }
}

impl vstd::std_specs::ops::MulSpecImpl<i32> for Vec3i {
    open spec fn obeys_mul_spec() -> bool {
        true
    }

    open spec fn mul_req(self, other: i32) -> bool {
        &&& i32::MIN <= self.x * other <= i32::MAX
        &&& i32::MIN <= self.y * other <= i32::MAX
        &&& i32::MIN <= self.z * other <= i32::MAX
    }

    open spec fn mul_spec(self, other: i32) -> Vec3i {
        Vec3i {
            x: (self.x * other) as i32,
            y: (self.y * other) as i32,
            z: (self.z * other) as i32,
        }
    }
}

/// The dot product of two space vectors, as an unbounded integer.
pub open spec fn spec_dot3(a: Vec3l, b: Vec3l) -> int {
    a.x * b.x + a.y * b.y + a.z * b.z
}

/// The x coordinate of the cross product, as an unbounded integer.
pub open spec fn spec_cross_x(a: Vec3l, b: Vec3l) -> int {
    a.y * b.z - a.z * b.y
}

/// The y coordinate of the cross product, as an unbounded integer.
pub open spec fn spec_cross_y(a: Vec3l, b: Vec3l) -> int {
    a.z * b.x - a.x * b.z
}

/// The z coordinate of the cross product, as an unbounded integer.
pub open spec fn spec_cross_z(a: Vec3l, b: Vec3l) -> int {
    a.x * b.y - a.y * b.x
}

impl Vec3l {
    /// Builds the vector `(x, y, z)`.
    pub fn new(x: i64, y: i64, z: i64) -> (r: Self)
        ensures
            r == (Vec3l { x, y, z }),
    {
        Vec3l { x, y, z }
    }

    /// The first coordinate.
    pub fn x(&self) -> (r: i64)
        ensures
            r == self.x,
    {
        self.x
    }

    /// The second coordinate.
    pub fn y(&self) -> (r: i64)
        ensures
            r == self.y,
    {
        self.y
    }

    /// The third coordinate.
    pub fn z(&self) -> (r: i64)
        ensures
            r == self.z,
    {
        self.z
    }

    /// The dot product of `a` and `b`.
    pub fn dot(a: Self, b: Self) -> (r: i64)
        requires
            in_coord_range3(a),
            in_coord_range3(b),
            i64::MIN <= spec_dot3(a, b) <= i64::MAX,
        ensures
            r == spec_dot3(a, b),
    {
        proof {
            lemma_mul_bound(a.x as int, b.x as int, COORD_LIMIT as int);
            lemma_mul_bound(a.y as int, b.y as int, COORD_LIMIT as int);
            lemma_mul_bound(a.z as int, b.z as int, COORD_LIMIT as int);
        }
        let d: i128 = (a.x as i128) * (b.x as i128) + (a.y as i128) * (b.y as i128) + (a.z
            as i128) * (b.z as i128);
        d as i64
    }

    /// The wedge (cross) product of `a` and `b`: the vector orthogonal to
    /// both whose length is the area of the parallelogram they span.
    pub fn wedge(a: Self, b: Self) -> (r: Self)
        requires
            in_coord_range3(a),
            in_coord_range3(b),
            i64::MIN <= spec_cross_x(a, b) <= i64::MAX,
            i64::MIN <= spec_cross_y(a, b) <= i64::MAX,
            i64::MIN <= spec_cross_z(a, b) <= i64::MAX,
        ensures
            r.x == spec_cross_x(a, b),
            r.y == spec_cross_y(a, b),
            r.z == spec_cross_z(a, b),
    {
        proof {
            lemma_mul_bound(a.x as int, b.y as int, COORD_LIMIT as int);
            lemma_mul_bound(a.y as int, b.x as int, COORD_LIMIT as int);
            lemma_mul_bound(a.y as int, b.z as int, COORD_LIMIT as int);
            lemma_mul_bound(a.z as int, b.y as int, COORD_LIMIT as int);
            lemma_mul_bound(a.z as int, b.x as int, COORD_LIMIT as int);
            lemma_mul_bound(a.x as int, b.z as int, COORD_LIMIT as int);
        }
        let x: i128 = (a.y as i128) * (b.z as i128) - (a.z as i128) * (b.y as i128);
        let y: i128 = (a.z as i128) * (b.x as i128) - (a.x as i128) * (b.z as i128);
        let z: i128 = (a.x as i128) * (b.y as i128) - (a.y as i128) * (b.x as i128);
        Vec3l { x: x as i64, y: y as i64, z: z as i64 }
    }
}

impl core::ops::Add for Vec3l {
    type Output = Vec3l;

    fn add(self, other: Vec3l) -> Vec3l {
        Vec3l { x: self.x + other.x, y: self.y + other.y, z: self.z + other.z }
    }
}

impl vstd::std_specs::ops::AddSpecImpl for Vec3l {
    open spec fn obeys_add_spec() -> bool {
        true
    }

    open spec fn add_req(self, other: Vec3l) -> bool {
        &&& i64::MIN <= self.x + other.x <= i64::MAX
        &&& i64::MIN <= self.y + other.y <= i64::MAX
        &&& i64::MIN <= self.z + other.z <= i64::MAX
    }

    open spec fn add_spec(self, other: Vec3l) -> Vec3l {
        Vec3l {
            x: (self.x + other.x) as i64,
            y: (self.y + other.y) as i64,
            z: (self.z + other.z) as i64,
        }
    }
}

impl core::ops::Sub for Vec3l {
    type Output = Vec3l;

    fn sub(self, other: Vec3l) -> Vec3l {
        Vec3l { x: self.x - other.x, y: self.y - other.y, z: self.z - other.z }
    }
}

impl vstd::std_specs::ops::SubSpecImpl for Vec3l {
    open spec fn obeys_sub_spec() -> bool {
        true
    }

    open spec fn sub_req(self, other: Vec3l) -> bool {
        &&& i64::MIN <= self.x - other.x <= i64::MAX
        &&& i64::MIN <= self.y - other.y <= i64::MAX
        &&& i64::MIN <= self.z - other.z <= i64::MAX
    }

    open spec fn sub_spec(self, other: Vec3l) -> Vec3l {
        Vec3l {
            x: (self.x - other.x) as i64,
            y: (self.y - other.y) as i64,
            z: (self.z - other.z) as i64,
        }
    }
}

impl core::ops::Mul<i64> for Vec3l {
    type Output = Vec3l;

    fn mul(self, other: i64) -> Vec3l {
        Vec3l { x: self.x * other, y: self.y * other, z: self.z * other }
    }
}

impl vstd::std_specs::ops::MulSpecImpl<i64> for Vec3l {
    open spec fn obeys_mul_spec() -> bool {
        true
    }

    open spec fn mul_req(self, other: i64) -> bool {
        &&& i64::MIN <= self.x * other <= i64::MAX
        &&& i64::MIN <= self.y * other <= i64::MAX
        &&& i64::MIN <= self.z * other <= i64::MAX
    }

    open spec fn mul_spec(self, other: i64) -> Vec3l {
        Vec3l {
            x: (self.x * other) as i64,
            y: (self.y * other) as i64,
            z: (self.z * other) as i64,
        }
    }
}

} // verus!
