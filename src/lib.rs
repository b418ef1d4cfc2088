//! A planar angle over a floating-point scalar, held in radians: unit
//! conversion (radians, degrees, cycles), normalization by the floored
//! remainder, arithmetic, and adapters to cgmath's unit-tagged scalars.

pub mod full_float;
pub mod units;
pub mod angle;
pub mod bridge;

pub use crate::angle::Angle;
pub use crate::full_float::FullFloat;
