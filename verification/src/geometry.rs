//! Points and vectors with exact `i64` coordinates, and the operations on
//! them: construction, squared and floor length, dot and cross products,
//! point-to-point distance, and rotations about the three coordinate axes.
//! Every contract is stated over the [`Vec3`] model reached through `@`.
//!
//! An angle is passed to the rotation functions as its cosine and sine. On
//! the unit circle (cosine² + sine² == 1) the map is a proper rotation and
//! preserves length; for any other pair it is the same linear map, scaled.

use vstd::prelude::*;

use crate::isqrt::{isqrt, isqrt_i64, lemma_isqrt_zero_iff, ISQRT_MAX};
use crate::vec3::{
    lemma_norm_sq_nonneg, lemma_rotate_x_preserves_norm_sq, lemma_rotate_y_preserves_norm_sq,
    lemma_rotate_z_preserves_norm_sq, Vec3,
};

verus! {

/// Largest coordinate magnitude the operations accept. Any product of two
/// coordinates bounded by it, and any sum or difference of up to three such
/// products, fits an `i64`.
pub const COORD_BOUND: i64 = 1_000_000_000;

/// A scalar within the coordinate range.
pub open spec fn scalar_in_range(k: int) -> bool {
    -(COORD_BOUND as int) <= k <= COORD_BOUND as int
}

/// A triple whose components all lie within the coordinate range.
pub open spec fn in_range(v: Vec3) -> bool {
    scalar_in_range(v.x) && scalar_in_range(v.y) && scalar_in_range(v.z)
}

/// A location in 3D space: three exact integer coordinates. Immutable once
/// constructed, with value semantics.
#[derive(Clone, Copy, Debug, PartialEq, Eq, Structural)]
pub struct Point {
    pub x: i64,
    pub y: i64,
    pub z: i64,
}

impl View for Point {
    type V = Vec3;

    open spec fn view(&self) -> Vec3 {
        Vec3 { x: self.x as int, y: self.y as int, z: self.z as int }
    }
}

impl Point {
    /// A point whose coordinates equal the inputs exactly: no transformation,
    /// no validation.
    pub fn new(x: i64, y: i64, z: i64) -> (p: Point)
        ensures
            p@ == (Vec3 { x: x as int, y: y as int, z: z as int }),
    {
        Point { x, y, z }
    }
}

/// A directed quantity in 3D space: three exact integer components, with
/// value semantics. Every operation returns a new value and leaves its
/// operands unchanged.
#[derive(Clone, Copy, Debug, PartialEq, Eq, Structural)]
pub struct Vector {
    pub x: i64,
    pub y: i64,
    pub z: i64,
}

impl View for Vector {
    type V = Vec3;

    open spec fn view(&self) -> Vec3 {
        Vec3 { x: self.x as int, y: self.y as int, z: self.z as int }
    }
}

/// The squared norm of a triple within the coordinate range is non-negative
/// and at most three times the squared bound, so it fits an `i64`.
proof fn lemma_norm_sq_bounded(v: Vec3)
    requires
        in_range(v),
    ensures
        0 <= v.norm_sq() <= ISQRT_MAX as int,
{
    assert(0 <= v.x * v.x <= 1_000_000_000_000_000_000) by (nonlinear_arith)
        requires
            -1_000_000_000 <= v.x <= 1_000_000_000;
    assert(0 <= v.y * v.y <= 1_000_000_000_000_000_000) by (nonlinear_arith)
        requires
            -1_000_000_000 <= v.y <= 1_000_000_000;
    assert(0 <= v.z * v.z <= 1_000_000_000_000_000_000) by (nonlinear_arith)
        requires
            -1_000_000_000 <= v.z <= 1_000_000_000;
}

/// A product of two scalars within the coordinate range stays within the
/// square of the bound.
proof fn lemma_product_bounded(a: int, b: int)
    requires
        scalar_in_range(a),
        scalar_in_range(b),
    ensures
        -1_000_000_000_000_000_000 <= a * b <= 1_000_000_000_000_000_000,
{
    assert(-1_000_000_000_000_000_000 <= a * b <= 1_000_000_000_000_000_000) by (nonlinear_arith)
        requires
            -1_000_000_000 <= a <= 1_000_000_000,
            -1_000_000_000 <= b <= 1_000_000_000;
}

impl Vector {
    /// The vector pointing from point `a` to point `b`: the component-wise
    /// difference `b − a`. Constructing from `(b, a)` instead yields the
    /// negated vector.
    pub fn new(a: &Point, b: &Point) -> (v: Vector)
        requires
            in_range(b@.minus(a@)),
        ensures
            v@ == b@.minus(a@),
            in_range(v@),
    {
        Vector { x: b.x - a.x, y: b.y - a.y, z: b.z - a.z }
    }

    /// The squared Euclidean length x² + y² + z², exactly.
    pub fn length_squared(&self) -> (r: i64)
        requires
            in_range(self@),
        ensures
            r == self@.norm_sq(),
            0 <= r,
    {
        proof {
            lemma_norm_sq_bounded(self@);
            lemma_product_bounded(self@.x, self@.x);
            lemma_product_bounded(self@.y, self@.y);
            lemma_product_bounded(self@.z, self@.z);
        }
        self.x * self.x + self.y * self.y + self.z * self.z
    }

    /// The Euclidean length, rounded down to an integer: the floor of
    /// √(x² + y² + z²). It is zero exactly on the zero vector
    /// (see `lemma_length_zero_iff`).
    pub fn length(&self) -> (r: i64)
        requires
            in_range(self@),
        ensures
            r == isqrt(self@.norm_sq() as nat),
            0 <= r,
            r * r <= self@.norm_sq(),
            self@.norm_sq() < (r + 1) * (r + 1),
    {
        proof {
            lemma_norm_sq_bounded(self@);
        }
        let sq = self.length_squared();
        isqrt_i64(sq)
    }

    /// The scalar (dot) product x·x′ + y·y′ + z·z′, exactly. Commutative
    /// (see `vec3::lemma_dot_commutative`).
    pub fn scalar_product(&self, other: &Vector) -> (r: i64)
        requires
            in_range(self@),
            in_range(other@),
        ensures
            r == self@.dot(other@),
    {
        proof {
            lemma_product_bounded(self@.x, other@.x);
            lemma_product_bounded(self@.y, other@.y);
            lemma_product_bounded(self@.z, other@.z);
        }
        self.x * other.x + self.y * other.y + self.z * other.z
    }

    /// The cross (vector) product
    /// (y·z′ − z·y′, z·x′ − x·z′, x·y′ − y·x′), exactly. Anti-commutative,
    /// and zero on parallel operands (see `vec3::lemma_cross_antisymmetric`,
    /// `vec3::lemma_cross_parallel`).
    pub fn cross_product(&self, other: &Vector) -> (v: Vector)
        requires
            in_range(self@),
            in_range(other@),
        ensures
            v@ == self@.cross(other@),
    {
        proof {
            lemma_product_bounded(self@.x, other@.y);
            lemma_product_bounded(self@.x, other@.z);
            lemma_product_bounded(self@.y, other@.x);
            lemma_product_bounded(self@.y, other@.z);
            lemma_product_bounded(self@.z, other@.x);
            lemma_product_bounded(self@.z, other@.y);
        }
        Vector {
            x: self.y * other.z - self.z * other.y,
            y: self.z * other.x - self.x * other.z,
            z: self.x * other.y - self.y * other.x,
        }
    }
}

/// The squared distance between two points: the squared norm of the vector
/// from `a` to `b`.
pub open spec fn dist_sq(a: Vec3, b: Vec3) -> int {
    b.minus(a).norm_sq()
}

/// The Euclidean distance between two points, rounded down to an integer:
/// the length of the vector from `a` to `b`, and computed as exactly that.
pub fn distance(a: &Point, b: &Point) -> (r: i64)
    requires
        in_range(b@.minus(a@)),
    ensures
        r == isqrt(dist_sq(a@, b@) as nat),
        0 <= r,
{
    let v = Vector::new(a, b);
    v.length()
}

/// The vector `v` rotated about the Z axis by the angle whose cosine and
/// sine are given: the plane rotation of (x, y), z unchanged. A positive
/// angle turns counter-clockwise seen from the positive Z axis.
pub fn rotate_vector_z(cos_angle: i64, sin_angle: i64, v: &Vector) -> (r: Vector)
    requires
        scalar_in_range(cos_angle as int),
        scalar_in_range(sin_angle as int),
        in_range(v@),
    ensures
        r@ == v@.rotated_z(cos_angle as int, sin_angle as int),
{
    proof {
        lemma_product_bounded(v@.x, cos_angle as int);
        lemma_product_bounded(v@.x, sin_angle as int);
        lemma_product_bounded(v@.y, cos_angle as int);
        lemma_product_bounded(v@.y, sin_angle as int);
    }
    Vector {
        x: v.x * cos_angle - v.y * sin_angle,
        y: v.x * sin_angle + v.y * cos_angle,
        z: v.z,
    }
}

/// The vector `v` rotated about the Y axis by the angle whose cosine and
/// sine are given: the plane rotation of (z, x), y unchanged. A positive
/// angle turns counter-clockwise seen from the positive Y axis.
pub fn rotate_vector_y(cos_angle: i64, sin_angle: i64, v: &Vector) -> (r: Vector)
    requires
        scalar_in_range(cos_angle as int),
        scalar_in_range(sin_angle as int),
        in_range(v@),
    ensures
        r@ == v@.rotated_y(cos_angle as int, sin_angle as int),
{
    proof {
        lemma_product_bounded(v@.x, cos_angle as int);
        lemma_product_bounded(v@.x, sin_angle as int);
        lemma_product_bounded(-v@.x, sin_angle as int);
        lemma_product_bounded(v@.z, cos_angle as int);
        lemma_product_bounded(v@.z, sin_angle as int);
    }
    Vector {
        x: v.x * cos_angle + v.z * sin_angle,
        y: v.y,
        z: -v.x * sin_angle + v.z * cos_angle,
    }
}

/// The vector `v` rotated about the X axis by the angle whose cosine and
/// sine are given: the plane rotation of (y, z), x unchanged. A positive
/// angle turns counter-clockwise seen from the positive X axis.
pub fn rotate_vector_x(cos_angle: i64, sin_angle: i64, v: &Vector) -> (r: Vector)
    requires
        scalar_in_range(cos_angle as int),
        scalar_in_range(sin_angle as int),
        in_range(v@),
    ensures
        r@ == v@.rotated_x(cos_angle as int, sin_angle as int),
{
    proof {
        lemma_product_bounded(v@.y, cos_angle as int);
        lemma_product_bounded(v@.y, sin_angle as int);
        lemma_product_bounded(v@.z, cos_angle as int);
        lemma_product_bounded(v@.z, sin_angle as int);
    }
    Vector {
        x: v.x,
        y: v.y * cos_angle - v.z * sin_angle,
        z: v.y * sin_angle + v.z * cos_angle,
    }
}

/// The floor length of a triple is non-negative and zero exactly on the zero
/// triple.
pub proof fn lemma_length_zero_iff(v: Vec3)
    ensures
        isqrt(v.norm_sq() as nat) == 0 <==> v == Vec3::zero(),
{
    lemma_norm_sq_nonneg(v);
    lemma_isqrt_zero_iff(v.norm_sq() as nat);
}

/// The distance between two points is the length of the vector from the
/// first to the second.
pub proof fn lemma_distance_is_length(a: Vec3, b: Vec3)
    ensures
        dist_sq(a, b) == b.minus(a).norm_sq(),
{
}

/// Distance is symmetric: swapping the points negates every component of the
/// difference and leaves the squared norm, hence the distance, unchanged.
pub proof fn lemma_distance_symmetric(a: Vec3, b: Vec3)
    ensures
        dist_sq(a, b) == dist_sq(b, a),
        isqrt(dist_sq(a, b) as nat) == isqrt(dist_sq(b, a) as nat),
{
    let d = b.minus(a);
    let e = a.minus(b);
    assert(d.x * d.x == e.x * e.x) by (nonlinear_arith)
        requires
            d.x == -e.x;
    assert(d.y * d.y == e.y * e.y) by (nonlinear_arith)
        requires
            d.y == -e.y;
    assert(d.z * d.z == e.z * e.z) by (nonlinear_arith)
        requires
            d.z == -e.z;
}

/// The distance from a point to itself is zero.
pub proof fn lemma_distance_self(a: Vec3)
    ensures
        dist_sq(a, a) == 0,
        isqrt(dist_sq(a, a) as nat) == 0,
{
    assert(a.minus(a) == Vec3::zero());
    lemma_norm_sq_nonneg(a.minus(a));
}

/// Rotation about Z by an angle on the unit circle preserves the floor
/// length, not only the squared norm.
pub proof fn lemma_rotate_z_preserves_length(v: Vec3, c: int, s: int)
    requires
        c * c + s * s == 1,
    ensures
        isqrt(v.rotated_z(c, s).norm_sq() as nat) == isqrt(v.norm_sq() as nat),
{
    lemma_rotate_z_preserves_norm_sq(v, c, s);
}

/// Rotation about Y by an angle on the unit circle preserves the floor
/// length, not only the squared norm.
pub proof fn lemma_rotate_y_preserves_length(v: Vec3, c: int, s: int)
    requires
        c * c + s * s == 1,
    ensures
        isqrt(v.rotated_y(c, s).norm_sq() as nat) == isqrt(v.norm_sq() as nat),
{
    lemma_rotate_y_preserves_norm_sq(v, c, s);
}

/// Rotation about X by an angle on the unit circle preserves the floor
/// length, not only the squared norm.
pub proof fn lemma_rotate_x_preserves_length(v: Vec3, c: int, s: int)
    requires
        c * c + s * s == 1,
    ensures
        isqrt(v.rotated_x(c, s).norm_sq() as nat) == isqrt(v.norm_sq() as nat),
{
    lemma_rotate_x_preserves_norm_sq(v, c, s);
}

} // verus!
