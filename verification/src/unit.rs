//! Unit tags, their scale factors and the conversion between them.
use vstd::prelude::*;
use vstd::pervasive::runtime_assert;
use crate::number::{narrow, narrowed, scale_int, Number};
use crate::types::rect::Rect;
use crate::types::vec2::Vec2;

pub mod metric;

verus! {

/// A tag that names the unit of a reading. Two tags of one type may be
/// combined in arithmetic unless the type says otherwise.
pub trait Unit: Sized + core::fmt::Debug {
    /// Whether a reading tagged `self` may be combined with one tagged
    /// `rhs`. Unless a unit says otherwise, any two of its tags may.
    open spec fn compatible(self, rhs: Self) -> bool {
        true
    }

    /// Decides [`Unit::compatible`].
    fn is_self_compatible(&self, rhs: &Self) -> (ok: bool)
        ensures
            ok == self.compatible(*rhs),
    ;
}

/// The absence of a unit: always compatible with itself.
impl Unit for () {
    fn is_self_compatible(&self, rhs: &Self) -> (ok: bool) {
        true
    }
}

/// Passes where the two tags may be combined. Combining tags that may not
/// is a mistake of the caller, so the condition is demanded beforehand; a
/// caller that was not verified is stopped here.
pub fn check_compatible<U: Unit>(v0: &U, v1: &U)
    requires
        v0.compatible(*v1),
{
    let compatible = v0.is_self_compatible(v1);
    runtime_assert(compatible);
}

/// A unit with a decimal scale factor: one of this unit is ten to the power
/// [`BasePrefix::exponent`] of the reference unit.
pub trait BasePrefix: Unit + Default {
    /// The decimal exponent of the scale factor. Unless a unit says
    /// otherwise, it is the reference unit itself.
    open spec fn exponent() -> int {
        0
    }

    /// Returns [`BasePrefix::exponent`].
    fn base_exponent() -> (e: i8)
        ensures
            e == Self::exponent(),
    ;
}

/// The absence of a unit stands for the reference unit: its factor is one.
impl BasePrefix for () {
    fn base_exponent() -> (e: i8) {
        0
    }
}

/// The conversion of readings of the lane type `N` from the unit `Rhs` to
/// the unit `Self`.
pub trait UnitCompatibility<N: Number, Rhs: Unit + Copy>: Unit + Copy {
    /// The reading `value` of the unit `unit` in the unit `self`, or nothing
    /// where `N` does not hold it. A conversion states its own result; the
    /// body here is a placeholder that converts nothing.
    open spec fn converted(&self, value: N, unit: Rhs) -> Option<N> {
        None
    }

    /// Converts the reading `value` of the unit `unit` to the unit `self`.
    fn convert_value(&self, value: N, unit: Rhs) -> (r: Option<N>)
        ensures
            r == self.converted(value, unit),
    ;

    /// Converts both lanes of `pos` to the unit `self`, or gives `None`
    /// where one of them cannot be converted.
    fn convert_pos2(&self, pos: Vec2<N, Rhs>) -> (r: Option<Vec2<N, Self>>)
        ensures
            r == match (self.converted(pos.x, pos.unit), self.converted(pos.y, pos.unit)) {
                (Some(x), Some(y)) => Some(Vec2 { x, y, unit: *self }),
                _ => None,
            },
    {
        match self.convert_value(pos.x, pos.unit) {
            Some(x) => match self.convert_value(pos.y, pos.unit) {
                Some(y) => Some(Vec2 { x, y, unit: *self }),
                None => None,
            },
            None => None,
        }
    }

    /// Converts the origin and the size of `rect` to the unit `self`, by
    /// the same ratio, or gives `None` where a lane cannot be converted.
    fn convert_rect(&self, rect: Rect<N, Rhs>) -> (r: Option<Rect<N, Self>>)
        ensures
            r == match (
                self.converted(rect.origin.x, rect.unit),
                self.converted(rect.origin.y, rect.unit),
                self.converted(rect.size.x, rect.unit),
                self.converted(rect.size.y, rect.unit),
            ) {
                (Some(x), Some(y), Some(w), Some(h)) => Some(
                    Rect {
                        origin: Vec2 { x, y, unit: () },
                        size: Vec2 { x: w, y: h, unit: () },
                        unit: *self,
                    },
                ),
                _ => None,
            },
    {
        match self.convert_pos2(rect.origin()) {
            Some(origin) => match self.convert_pos2(rect.size()) {
                Some(size) => Some(
                    Rect { origin: origin.any_unit(), size: size.any_unit(), unit: *self },
                ),
                None => None,
            },
            None => None,
        }
    }
}

/// Between two units with decimal factors, a reading is scaled by ten to
/// the difference of their exponents. Toward a smaller unit it is
/// multiplied; toward a larger unit it is divided and rounded toward zero.
impl<N: Number, F: BasePrefix + Copy, T: BasePrefix + Copy> UnitCompatibility<N, F> for T {
    open spec fn converted(&self, value: N, unit: F) -> Option<N> {
        narrow::<N>(scale_int(value.value(), F::exponent() - T::exponent()))
    }

    fn convert_value(&self, value: N, unit: F) -> (r: Option<N>)
        ensures
            narrowed(r, scale_int(value.value(), F::exponent() - T::exponent())),
    {
        let from: i16 = F::base_exponent() as i16;
        let to: i16 = T::base_exponent() as i16;
        value.scale(from - to)
    }
}

} // verus!
