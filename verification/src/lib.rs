//! Typed 3d transforms (4 by 4 matrices acting on row vectors) over a generic
//! scalar, with the geometric types they act on.
pub mod geom;
pub mod laws;
pub mod laws_bounds;
pub mod laws_determinant;
pub mod laws_inverse;
pub mod laws_projective;
pub mod laws_rotation;
pub mod matrix;
pub mod num;
pub mod signed_sum;
pub mod transform2d;
pub mod transform3d;
pub mod units;
