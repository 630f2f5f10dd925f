//! The two shapes of a version number.

pub mod base;
pub mod full;
