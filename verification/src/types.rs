//! The carrier types: a scalar, a two-lane vector and a rectangle.

pub mod compare;
pub mod convert;
pub mod ops;
pub mod rect;
pub mod value;
pub mod vec2;
