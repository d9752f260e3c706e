//! A miniature ray tracer built on exact fixed-point arithmetic.
//!
//! Every scalar is a signed count of `1 / fixed::SCALE` steps, so all of the
//! geometry — tuple algebra, the 4x4 matrix engine, ray/sphere intersection
//! and Phong lighting — is integer arithmetic with a precisely specified
//! rounding rule, and each operation carries an exact contract.

pub mod fixed;
pub mod tuple;
pub mod color;
pub mod matrix;
pub mod matrix_transformations;
pub mod light;
pub mod rays;
pub mod canvas;
pub mod environment;
pub mod projectile;
