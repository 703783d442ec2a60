//! Exact 3D analytic geometry: points, vectors, the operations derived from
//! them (squared and floor length, dot product, cross product, Euclidean
//! distance between points), and axis-aligned rotations of a vector about the
//! X, Y and Z axes, all over exact integer coordinates.
//!
//! Coordinates are `i64` values kept within [`geometry::COORD_BOUND`], so that
//! every product the algebra forms fits the machine word. The mathematical
//! model of both points and vectors is [`vec3::Vec3`], a triple of unbounded
//! integers; every operation's contract states its result over that model, and
//! the algebraic laws (anti-commutativity of the cross product, commutativity
//! of the dot product, rotation composition, preservation of length under
//! rotation) are proved over it for all integer values.

pub mod geometry;
pub mod isqrt;
pub mod vec3;

pub use geometry::{
    distance, rotate_vector_x, rotate_vector_y, rotate_vector_z, Point, Vector, COORD_BOUND,
};
pub use isqrt::isqrt_i64;
