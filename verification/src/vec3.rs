//! The mathematical model of the geometry: a triple of unbounded integers,
//! with the vector algebra and the axis rotations as specification functions,
//! and the algebraic laws proved for all integer values.

use vstd::arithmetic::mul::{lemma_mul_is_associative, lemma_mul_is_commutative,
    lemma_mul_is_distributive_add, lemma_mul_is_distributive_add_other_way,
    lemma_mul_is_distributive_sub, lemma_mul_is_distributive_sub_other_way,
    lemma_mul_unary_negation};
use vstd::prelude::*;

verus! {

/// A triple of unbounded integers: the model of a point or a vector.
pub struct Vec3 {
    pub x: int,
    pub y: int,
    pub z: int,
}

impl Vec3 {
    /// The zero triple.
    pub open spec fn zero() -> Vec3 {
        Vec3 { x: 0, y: 0, z: 0 }
    }

    /// Component-wise difference `self - other`.
    pub open spec fn minus(self, other: Vec3) -> Vec3 {
        Vec3 { x: self.x - other.x, y: self.y - other.y, z: self.z - other.z }
    }

    /// Component-wise negation.
    pub open spec fn neg(self) -> Vec3 {
        Vec3 { x: -self.x, y: -self.y, z: -self.z }
    }

    /// Component-wise scaling by `k`.
    pub open spec fn scaled(self, k: int) -> Vec3 {
        Vec3 { x: k * self.x, y: k * self.y, z: k * self.z }
    }

    /// Dot (scalar) product: the sum of the component-wise products.
    pub open spec fn dot(self, other: Vec3) -> int {
        self.x * other.x + self.y * other.y + self.z * other.z
    }

    /// Cross (vector) product: the vector perpendicular to both operands,
    /// oriented by the right-hand rule.
    pub open spec fn cross(self, other: Vec3) -> Vec3 {
        Vec3 {
            x: self.y * other.z - self.z * other.y,
            y: self.z * other.x - self.x * other.z,
            z: self.x * other.y - self.y * other.x,
        }
    }

    /// Squared Euclidean norm: the dot product of the triple with itself.
    pub open spec fn norm_sq(self) -> int {
        self.dot(self)
    }

    /// Rotation about the Z axis by the angle whose cosine is `c` and whose
    /// sine is `s`: the plane rotation of (x, y), z unchanged. A positive
    /// angle turns counter-clockwise seen from the positive Z axis.
    pub open spec fn rotated_z(self, c: int, s: int) -> Vec3 {
        Vec3 { x: self.x * c - self.y * s, y: self.x * s + self.y * c, z: self.z }
    }

    /// Rotation about the Y axis: the plane rotation of (z, x), y unchanged.
    /// A positive angle turns counter-clockwise seen from the positive Y axis.
    pub open spec fn rotated_y(self, c: int, s: int) -> Vec3 {
        Vec3 { x: self.x * c + self.z * s, y: self.y, z: -self.x * s + self.z * c }
    }

    /// Rotation about the X axis: the plane rotation of (y, z), x unchanged.
    /// A positive angle turns counter-clockwise seen from the positive X axis.
    pub open spec fn rotated_x(self, c: int, s: int) -> Vec3 {
        Vec3 { x: self.x, y: self.y * c - self.z * s, z: self.y * s + self.z * c }
    }
}

/// The dot product is commutative: `a · b == b · a`.
pub proof fn lemma_dot_commutative(a: Vec3, b: Vec3)
    ensures
        a.dot(b) == b.dot(a),
{
    assert(a.x * b.x + a.y * b.y + a.z * b.z == b.x * a.x + b.y * a.y + b.z * a.z)
        by (nonlinear_arith);
}

/// The cross product is anti-commutative: `a × b` is the component-wise
/// negation of `b × a`.
pub proof fn lemma_cross_antisymmetric(a: Vec3, b: Vec3)
    ensures
        a.cross(b) == b.cross(a).neg(),
{
    assert(a.y * b.z - a.z * b.y == -(b.y * a.z - b.z * a.y)) by (nonlinear_arith);
    assert(a.z * b.x - a.x * b.z == -(b.z * a.x - b.x * a.z)) by (nonlinear_arith);
    assert(a.x * b.y - a.y * b.x == -(b.x * a.y - b.y * a.x)) by (nonlinear_arith);
}

/// The cross product of a triple with itself is the zero triple.
pub proof fn lemma_cross_self(a: Vec3)
    ensures
        a.cross(a) == Vec3::zero(),
{
    assert(a.y * a.z - a.z * a.y == 0) by (nonlinear_arith);
    assert(a.z * a.x - a.x * a.z == 0) by (nonlinear_arith);
    assert(a.x * a.y - a.y * a.x == 0) by (nonlinear_arith);
}

/// The cross product of parallel triples (one a scaling of the other) is the
/// zero triple.
pub proof fn lemma_cross_parallel(a: Vec3, k: int)
    ensures
        a.cross(a.scaled(k)) == Vec3::zero(),
{
    let b = a.scaled(k);
    assert(a.y * b.z - a.z * b.y == 0) by (nonlinear_arith)
        requires
            b.y == k * a.y,
            b.z == k * a.z;
    assert(a.z * b.x - a.x * b.z == 0) by (nonlinear_arith)
        requires
            b.x == k * a.x,
            b.z == k * a.z;
    assert(a.x * b.y - a.y * b.x == 0) by (nonlinear_arith)
        requires
            b.x == k * a.x,
            b.y == k * a.y;
}

/// The squared norm is non-negative, and zero exactly on the zero triple.
pub proof fn lemma_norm_sq_nonneg(v: Vec3)
    ensures
        v.norm_sq() >= 0,
        v.norm_sq() == 0 <==> v == Vec3::zero(),
{
    assert(v.x * v.x + v.y * v.y + v.z * v.z >= 0 && (v.x * v.x + v.y * v.y + v.z * v.z == 0
        <==> v.x == 0 && v.y == 0 && v.z == 0)) by (nonlinear_arith);
}

/// Rotation about Z by a zero angle (cosine 1, sine 0) is the identity.
pub proof fn lemma_rotate_z_identity(v: Vec3)
    ensures
        v.rotated_z(1, 0) == v,
{
    let c: int = 1;
    let s: int = 0;
    assert(v.x * c - v.y * s == v.x && v.x * s + v.y * c == v.y) by (nonlinear_arith)
        requires
            c == 1,
            s == 0;
    assert(v.rotated_z(1, 0) == v.rotated_z(c, s));
}

/// Rotation about Y by a zero angle (cosine 1, sine 0) is the identity.
pub proof fn lemma_rotate_y_identity(v: Vec3)
    ensures
        v.rotated_y(1, 0) == v,
{
    let c: int = 1;
    let s: int = 0;
    assert(v.x * c + v.z * s == v.x && -v.x * s + v.z * c == v.z) by (nonlinear_arith)
        requires
            c == 1,
            s == 0;
    assert(v.rotated_y(1, 0) == v.rotated_y(c, s));
}

/// Rotation about X by a zero angle (cosine 1, sine 0) is the identity.
pub proof fn lemma_rotate_x_identity(v: Vec3)
    ensures
        v.rotated_x(1, 0) == v,
{
    let c: int = 1;
    let s: int = 0;
    assert(v.y * c - v.z * s == v.y && v.y * s + v.z * c == v.z) by (nonlinear_arith)
        requires
            c == 1,
            s == 0;
    assert(v.rotated_x(1, 0) == v.rotated_x(c, s));
}


/// Composing two plane rotations, written on one coordinate pair (a, b):
/// rotating by the angle (c2, s2) and then by (c1, s1) gives the pair that
/// the summed angle (c1·c2 − s1·s2, s1·c2 + c1·s2) gives directly.
proof fn lemma_plane_rotation_compose(a: int, b: int, c1: int, s1: int, c2: int, s2: int)
    ensures
        (a * c2 - b * s2) * c1 - (a * s2 + b * c2) * s1 == a * (c1 * c2 - s1 * s2) - b * (s1 * c2
            + c1 * s2),
        (a * c2 - b * s2) * s1 + (a * s2 + b * c2) * c1 == a * (s1 * c2 + c1 * s2) + b * (c1 * c2
            - s1 * s2),
{
    lemma_mul_is_distributive_sub_other_way(c1, a * c2, b * s2);
    lemma_mul_is_distributive_add_other_way(s1, a * s2, b * c2);
    lemma_mul_is_distributive_sub_other_way(s1, a * c2, b * s2);
    lemma_mul_is_distributive_add_other_way(c1, a * s2, b * c2);
    lemma_mul_is_associative(a, c2, c1);
    lemma_mul_is_associative(a, c2, s1);
    lemma_mul_is_associative(a, s2, c1);
    lemma_mul_is_associative(a, s2, s1);
    lemma_mul_is_associative(b, c2, c1);
    lemma_mul_is_associative(b, c2, s1);
    lemma_mul_is_associative(b, s2, c1);
    lemma_mul_is_associative(b, s2, s1);
    lemma_mul_is_commutative(c2, c1);
    lemma_mul_is_commutative(c2, s1);
    lemma_mul_is_commutative(s2, c1);
    lemma_mul_is_commutative(s2, s1);
    lemma_mul_is_distributive_sub(a, c1 * c2, s1 * s2);
    lemma_mul_is_distributive_add(a, s1 * c2, c1 * s2);
    lemma_mul_is_distributive_sub(b, c1 * c2, s1 * s2);
    lemma_mul_is_distributive_add(b, s1 * c2, c1 * s2);
}

/// Rotations about Z compose by the angle-sum identities: rotating by the
/// angle (c2, s2) and then by (c1, s1) is rotating by
/// (c1·c2 − s1·s2, s1·c2 + c1·s2), the cosine and sine of the summed angle.
pub proof fn lemma_rotate_z_additive(v: Vec3, c1: int, s1: int, c2: int, s2: int)
    ensures
        v.rotated_z(c2, s2).rotated_z(c1, s1) == v.rotated_z(c1 * c2 - s1 * s2, s1 * c2 + c1 * s2),
{
    lemma_plane_rotation_compose(v.x, v.y, c1, s1, c2, s2);
}

/// The angle-sum identities written in the shape the Y-axis rotation uses,
/// on one coordinate pair (x, z).
proof fn lemma_plane_rotation_compose_y(x: int, z: int, c1: int, s1: int, c2: int, s2: int)
    ensures
        (x * c2 + z * s2) * c1 + (-x * s2 + z * c2) * s1 == x * (c1 * c2 - s1 * s2) + z * (s1 * c2
            + c1 * s2),
        -(x * c2 + z * s2) * s1 + (-x * s2 + z * c2) * c1 == -x * (s1 * c2 + c1 * s2) + z * (c1
            * c2 - s1 * s2),
{
    lemma_mul_is_distributive_add_other_way(c1, x * c2, z * s2);
    lemma_mul_is_distributive_add_other_way(s1, -x * s2, z * c2);
    lemma_mul_is_distributive_add_other_way(s1, x * c2, z * s2);
    lemma_mul_is_distributive_add_other_way(c1, -x * s2, z * c2);
    lemma_mul_is_associative(x, c2, c1);
    lemma_mul_is_associative(x, c2, s1);
    lemma_mul_is_associative(z, s2, c1);
    lemma_mul_is_associative(z, s2, s1);
    lemma_mul_is_associative(z, c2, c1);
    lemma_mul_is_associative(z, c2, s1);
    lemma_mul_is_associative(-x, s2, c1);
    lemma_mul_is_associative(-x, s2, s1);
    lemma_mul_is_commutative(c2, c1);
    lemma_mul_is_commutative(c2, s1);
    lemma_mul_is_commutative(s2, c1);
    lemma_mul_is_commutative(s2, s1);
    lemma_mul_unary_negation(x, s2 * c1);
    lemma_mul_unary_negation(x, s2 * s1);
    lemma_mul_unary_negation(x, c1 * s2);
    lemma_mul_unary_negation(x, s1 * s2);
    lemma_mul_unary_negation(x, s1 * c2 + c1 * s2);
    lemma_mul_unary_negation(x * c2 + z * s2, s1);
    lemma_mul_is_distributive_sub(x, c1 * c2, s1 * s2);
    lemma_mul_is_distributive_add(x, s1 * c2, c1 * s2);
    lemma_mul_is_distributive_sub(z, c1 * c2, s1 * s2);
    lemma_mul_is_distributive_add(z, s1 * c2, c1 * s2);
}

/// Rotations about Y compose by the angle-sum identities.
pub proof fn lemma_rotate_y_additive(v: Vec3, c1: int, s1: int, c2: int, s2: int)
    ensures
        v.rotated_y(c2, s2).rotated_y(c1, s1) == v.rotated_y(c1 * c2 - s1 * s2, s1 * c2 + c1 * s2),
{
    lemma_plane_rotation_compose_y(v.x, v.z, c1, s1, c2, s2);
}

/// Rotations about X compose by the angle-sum identities.
pub proof fn lemma_rotate_x_additive(v: Vec3, c1: int, s1: int, c2: int, s2: int)
    ensures
        v.rotated_x(c2, s2).rotated_x(c1, s1) == v.rotated_x(c1 * c2 - s1 * s2, s1 * c2 + c1 * s2),
{
    lemma_plane_rotation_compose(v.y, v.z, c1, s1, c2, s2);
}

/// Rotation about Z by any angle (a cosine-sine pair on the unit circle)
/// preserves the squared norm.
pub proof fn lemma_rotate_z_preserves_norm_sq(v: Vec3, c: int, s: int)
    requires
        c * c + s * s == 1,
    ensures
        v.rotated_z(c, s).norm_sq() == v.norm_sq(),
{
    assert((v.x * c - v.y * s) * (v.x * c - v.y * s) + (v.x * s + v.y * c) * (v.x * s + v.y * c)
        + v.z * v.z == v.x * v.x + v.y * v.y + v.z * v.z) by (nonlinear_arith)
        requires
            c * c + s * s == 1;
}

/// Rotation about Y by any angle (a cosine-sine pair on the unit circle)
/// preserves the squared norm.
pub proof fn lemma_rotate_y_preserves_norm_sq(v: Vec3, c: int, s: int)
    requires
        c * c + s * s == 1,
    ensures
        v.rotated_y(c, s).norm_sq() == v.norm_sq(),
{
    assert((v.x * c + v.z * s) * (v.x * c + v.z * s) + v.y * v.y + (-v.x * s + v.z * c) * (-v.x * s
        + v.z * c) == v.x * v.x + v.y * v.y + v.z * v.z) by (nonlinear_arith)
        requires
            c * c + s * s == 1;
}

/// Rotation about X by any angle (a cosine-sine pair on the unit circle)
/// preserves the squared norm.
pub proof fn lemma_rotate_x_preserves_norm_sq(v: Vec3, c: int, s: int)
    requires
        c * c + s * s == 1,
    ensures
        v.rotated_x(c, s).norm_sq() == v.norm_sq(),
{
    assert(v.x * v.x + (v.y * c - v.z * s) * (v.y * c - v.z * s) + (v.y * s + v.z * c) * (v.y * s
        + v.z * c) == v.x * v.x + v.y * v.y + v.z * v.z) by (nonlinear_arith)
        requires
            c * c + s * s == 1;
}

} // verus!
