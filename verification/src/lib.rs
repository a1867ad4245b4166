//! Exact rigid spatial transforms: a position paired with a unit quaternion,
//! composed into a homogeneous 4x4 matrix and inverted in closed form.
//!
//! Every coordinate is an exact rational, kept as an integer numerator over a
//! positive shared denominator, so composition and inversion are proved exact
//! rather than approximate.

pub mod linalg;
pub mod transform;
pub mod laws;
