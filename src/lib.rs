//! Axis-aligned boxes in two and three dimensions and a classifier that
//! decides how two of them relate: disjoint, overlapping, or nested.
//!
//! Coordinates are IEEE-754 double-precision values carried as their bit
//! patterns. Vectors compare axis by axis in the IEEE-754 total order; a box
//! built from two corners takes on each axis their minimum and maximum, with
//! a NaN ignored when the other corner holds a number there.

pub mod scalar;
pub mod vec_cmp;
pub mod vec2;
pub mod vec3;
pub mod collide;
pub mod rectangle;
pub mod cube;
