//! Geometric and shading core of a CPU ray tracer.
//!
//! All quantities are fixed-point numbers: an `i64` holds a real value
//! multiplied by [`fixed::SCALE`] and truncated toward zero.  Every
//! operation is exact integer arithmetic, so each contract states the
//! result of a computation precisely, with no rounding left unspecified.

pub mod fixed;
pub mod vector;
pub mod vertex;
pub mod triangle;
pub mod ray;
pub mod color;
pub mod matrix;
pub mod texture;
