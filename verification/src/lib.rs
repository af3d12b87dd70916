//! Unit-checked numeric values: a scalar, a two-lane vector and an
//! axis-aligned rectangle over any lane type, tagged with an optional unit.
//!
//! A lane type reads as an integer of a bounded range ([`number`]); the
//! machine integers are the lane types that come with the crate
//! ([`primitive`]). A unit is a tag with a decimal scale factor, and a
//! reading converts between two units by scaling ([`unit`], [`scale`]). The
//! carriers ([`types`]) combine these, and [`laws`] states what holds of
//! them.

pub mod laws;
pub mod number;
pub mod primitive;
pub mod scale;
pub mod types;
pub mod unit;

pub use number::Exact;
pub use number::Number;
pub use number::Op;
pub use number::Ranged;
pub use types::rect::Rect;
pub use types::value::Value;
pub use types::vec2::Vec2;
pub use types::vec2::Vec2D;
pub use unit::BasePrefix;
pub use unit::Unit;
pub use unit::UnitCompatibility;
