//! An axis-aligned rectangle: an origin and a size that share one unit.
use vstd::prelude::*;
use vstd::pervasive::unreached;
use crate::number::{at_most, in_range, trunc_div, Number, Op};
use crate::types::vec2::{defined2, eval2, in_range2, Vec2};
use crate::unit::{check_compatible, Unit, UnitCompatibility};

verus! {

/// A rectangle from `origin`, its min corner, over `size` to `origin + size`,
/// its max corner, under the one unit tag `unit`. A negative size is a value
/// like any other: the rectangle is then inverted, and its max corner lies
/// before its min corner.
#[derive(Copy, Debug)]
pub struct Rect<N: Number, U: Unit + Copy = ()> {
    pub origin: Vec2<N>,
    pub size: Vec2<N>,
    pub unit: U,
}

impl<N: Number, U: Unit + Copy> Clone for Rect<N, U> {
    /// A copy of the rectangle.
    fn clone(&self) -> (r: Self)
        ensures
            r == *self,
    {
        *self
    }
}

impl<N: Number, U: Unit + Copy> View for Rect<N, U> {
    type V = ((int, int), (int, int));

    /// The origin and the size as integers.
    open spec fn view(&self) -> ((int, int), (int, int)) {
        (self.origin@, self.size@)
    }
}

/// The lanes of a pair as a vector without a unit.
pub open spec fn lanes<N: Number>(pair: [N; 2]) -> Vec2<N> {
    Vec2 { x: pair[0], y: pair[1], unit: () }
}

impl<N: Number> Rect<N> {
    /// A rectangle without a unit.
    pub fn new_any(origin: [N; 2], size: [N; 2]) -> (r: Rect<N>)
        ensures
            r == (Rect { origin: lanes(origin), size: lanes(size), unit: () }),
    {
        Self::new_u(origin, size, ())
    }
}

impl<N: Number, U: Unit + Copy + Default> Rect<N, U> {
    /// A rectangle with the default tag of `U`.
    pub fn new(origin: [N; 2], size: [N; 2]) -> (r: Rect<N, U>)
        ensures
            r.origin == lanes(origin),
            r.size == lanes(size),
            call_ensures(U::default, (), r.unit),
    {
        Self::new_u(origin, size, U::default())
    }

    /// The rectangle from the corner `min` to the corner `max`: its size is
    /// `max - min`.
    pub fn new_min_max(min: [N; 2], max: [N; 2]) -> (r: Rect<N, U>)
        requires
            defined2::<N>(Op::Sub, lanes(max)@, lanes(min)@),
        ensures
            r.origin == lanes(min),
            r.size@ == eval2(Op::Sub, lanes(max)@, lanes(min)@),
            call_ensures(U::default, (), r.unit),
    {
        let min = Vec2::new_any(min[0], min[1]);
        let max = Vec2::new_any(max[0], max[1]);
        Rect { origin: min, size: max.apply(Op::Sub, min), unit: U::default() }
    }

    /// The rectangle of size zero at the origin zero.
    pub fn zero() -> (r: Rect<N, U>)
        ensures
            r@ == ((0int, 0int), (0int, 0int)),
            call_ensures(U::default, (), r.unit),
    {
        Self::new([N::zero(), N::zero()], [N::zero(), N::zero()])
    }

    /// The rectangle of size one at the origin zero.
    pub fn one() -> (r: Rect<N, U>)
        ensures
            r@ == ((0int, 0int), (1int, 1int)),
            call_ensures(U::default, (), r.unit),
    {
        Self::new([N::zero(), N::zero()], [N::one(), N::one()])
    }
}

impl<N: Number, U: Unit + Copy> Rect<N, U> {
    /// The `x` of the min corner.
    pub open spec fn min_x(self) -> int {
        self.origin@.0
    }

    /// The `y` of the min corner.
    pub open spec fn min_y(self) -> int {
        self.origin@.1
    }

    /// The `x` of the max corner.
    pub open spec fn max_x(self) -> int {
        self.origin@.0 + self.size@.0
    }

    /// The `y` of the max corner.
    pub open spec fn max_y(self) -> int {
        self.origin@.1 + self.size@.1
    }

    /// Whether `N` holds the max corner.
    pub open spec fn has_max(self) -> bool {
        in_range2::<N>((self.max_x(), self.max_y()))
    }

    /// Whether the point lies in the rectangle, its four edges included.
    pub open spec fn holds(self, p: (int, int)) -> bool {
        &&& self.min_x() <= p.0 <= self.max_x()
        &&& self.min_y() <= p.1 <= self.max_y()
    }

    /// Whether the rectangle is inverted on an axis.
    pub open spec fn negative(self) -> bool {
        self.max_x() < self.min_x() || self.max_y() < self.min_y()
    }

    /// Whether the rectangle has no area: its extent is not positive on
    /// both axes.
    pub open spec fn empty(self) -> bool {
        !(self.max_x() > self.min_x() && self.max_y() > self.min_y())
    }

    /// Whether the closed intervals of the two rectangles meet on both axes.
    pub open spec fn meets(self, other: Rect<N, U>) -> bool {
        &&& self.min_x() <= other.max_x()
        &&& self.max_x() >= other.min_x()
        &&& self.min_y() <= other.max_y()
        &&& self.max_y() >= other.min_y()
    }

    /// A rectangle with the tag `unit`.
    pub fn new_u(origin: [N; 2], size: [N; 2], unit: U) -> (r: Rect<N, U>)
        ensures
            r == (Rect { origin: lanes(origin), size: lanes(size), unit }),
    {
        Rect {
            origin: Vec2::new_any(origin[0], origin[1]),
            size: Vec2::new_any(size[0], size[1]),
            unit,
        }
    }

    /// The tag.
    pub fn unit(self) -> (u: U)
        ensures
            u == self.unit,
    {
        self.unit
    }

    /// The same rectangle in the lane type `NO`, which holds the four lanes.
    pub fn cast<NO: Number>(self) -> (r: Rect<NO, U>)
        requires
            in_range2::<NO>(self.origin@),
            in_range2::<NO>(self.size@),
        ensures
            r@ == self@,
            r.unit == self.unit,
    {
        Rect { origin: self.origin.cast::<NO>(), size: self.size.cast::<NO>(), unit: self.unit }
    }

    /// The same rectangle in the lane type `NO`, or `None` where `NO` does
    /// not hold one of the four lanes.
    pub fn try_cast<NO: Number>(self) -> (r: Option<Rect<NO, U>>)
        ensures
            r == match (self.origin.spec_try_cast::<NO>(), self.size.spec_try_cast::<NO>()) {
                (Some(origin), Some(size)) => Some(Rect { origin, size, unit: self.unit }),
                _ => None,
            },
            r matches Some(v) ==> v@ == self@,
    {
        match self.origin.try_cast::<NO>() {
            Some(origin) => match self.size.try_cast::<NO>() {
                Some(size) => Some(Rect { origin, size, unit: self.unit }),
                None => None,
            },
            None => None,
        }
    }

    /// The rectangle in the unit `to`, its origin and its size converted by
    /// the same ratio, or nothing where `N` does not hold one of the lanes.
    pub open spec fn converted_to<UO: UnitCompatibility<N, U>>(self, to: UO) -> Option<
        Rect<N, UO>,
    > {
        match (
            to.converted(self.origin.x, self.unit),
            to.converted(self.origin.y, self.unit),
            to.converted(self.size.x, self.unit),
            to.converted(self.size.y, self.unit),
        ) {
            (Some(x), Some(y), Some(w), Some(h)) => Some(
                Rect {
                    origin: Vec2 { x, y, unit: () },
                    size: Vec2 { x: w, y: h, unit: () },
                    unit: to,
                },
            ),
            _ => None,
        }
    }

    /// Converts the rectangle to the default tag of the unit `UO`, in which
    /// `N` holds its lanes.
    pub fn convert<UO: UnitCompatibility<N, U> + Default>(self) -> (r: Rect<N, UO>)
        requires
            forall|to: UO| call_ensures(UO::default, (), to) ==> self.converted_to(to).is_some(),
        ensures
            exists|to: UO| call_ensures(UO::default, (), to) && Some(r) == self.converted_to(to),
    {
        self.convert_u(UO::default())
    }

    /// Converts the rectangle to the default tag of the unit `UO`, or gives
    /// `None` where `N` does not hold one of its lanes.
    pub fn try_convert<UO: UnitCompatibility<N, U> + Default>(self) -> (r: Option<Rect<N, UO>>)
        ensures
            exists|to: UO| call_ensures(UO::default, (), to) && r == self.converted_to(to),
    {
        self.try_convert_u(UO::default())
    }

    /// Converts the rectangle to the unit `to`, in which `N` holds its lanes.
    pub fn convert_u<UO: UnitCompatibility<N, U>>(self, to: UO) -> (r: Rect<N, UO>)
        requires
            self.converted_to(to).is_some(),
        ensures
            Some(r) == self.converted_to(to),
    {
        match self.try_convert_u(to) {
            Some(v) => v,
            None => unreached(),
        }
    }

    /// Converts the rectangle to the unit `to`, or gives `None` where `N`
    /// does not hold one of its lanes.
    pub fn try_convert_u<UO: UnitCompatibility<N, U>>(self, to: UO) -> (r: Option<Rect<N, UO>>)
        ensures
            r == self.converted_to(to),
    {
        to.convert_rect(self)
    }

    /// Whether the two rectangles touch: their closed intervals meet on both
    /// axes, so that a shared edge or corner counts.
    pub fn intersects_rect(&self, other: Rect<N, U>) -> (r: bool)
        requires
            self.unit.compatible(other.unit),
            self.has_max(),
            other.has_max(),
        ensures
            r == self.meets(other),
    {
        check_compatible(&self.unit, &other.unit);
        let s_min = self.origin;
        let s_max = self.max_lanes();
        let o_min = other.origin;
        let o_max = other.max_lanes();
        at_most(s_min.x, o_max.x) && at_most(o_min.x, s_max.x) && at_most(s_min.y, o_max.y)
            && at_most(o_min.y, s_max.y)
    }

    /// Whether `self` holds both corners of `rect`.
    pub fn contains_rect(&self, rect: Rect<N, U>) -> (r: bool)
        requires
            self.unit.compatible(rect.unit),
            self.has_max(),
            rect.has_max(),
        ensures
            r == (self.holds((rect.min_x(), rect.min_y())) && self.holds(
                (rect.max_x(), rect.max_y()),
            )),
    {
        check_compatible(&self.unit, &rect.unit);
        self.holds_lanes(rect.origin) && self.holds_lanes(rect.max_lanes())
    }

    /// Whether `pos` lies in the rectangle. The four edges belong to it.
    pub fn contains_pos(&self, pos: Vec2<N, U>) -> (r: bool)
        requires
            self.unit.compatible(pos.unit),
            self.has_max(),
        ensures
            r == self.holds(pos@),
    {
        check_compatible(&self.unit, &pos.unit);
        self.holds_lanes(pos.any_unit())
    }

    /// Whether the rectangle is inverted on an axis: a max lane lies before
    /// its min lane.
    pub fn is_negative(&self) -> (r: bool)
        requires
            self.has_max(),
        ensures
            r == self.negative(),
    {
        let min = self.origin;
        let max = self.max_lanes();
        max.x.less_than(min.x) || max.y.less_than(min.y)
    }

    /// Whether the rectangle has no area: it is inverted or flat on an axis.
    pub fn is_empty(&self) -> (r: bool)
        requires
            self.has_max(),
        ensures
            r == self.empty(),
    {
        let min = self.origin;
        let max = self.max_lanes();
        !(min.x.less_than(max.x) && min.y.less_than(max.y))
    }

    /// The rectangle made smaller by `value` on both axes about its center:
    /// the origin moves by half of `value`, and the size loses `value`.
    pub fn shrink(&self, value: Vec2<N, U>) -> (r: Rect<N, U>)
        requires
            self.unit.compatible(value.unit),
            in_range2::<N>(
                (
                    self.origin@.0 + trunc_div(value@.0, 2),
                    self.origin@.1 + trunc_div(value@.1, 2),
                ),
            ),
            in_range2::<N>((self.size@.0 - value@.0, self.size@.1 - value@.1)),
        ensures
            r.origin@ == (
                self.origin@.0 + trunc_div(value@.0, 2),
                self.origin@.1 + trunc_div(value@.1, 2),
            ),
            r.size@ == (self.size@.0 - value@.0, self.size@.1 - value@.1),
            r.unit == self.unit,
    {
        check_compatible(&self.unit, &value.unit);
        let value = value.any_unit();
        let half_value = halved(value);
        Rect {
            origin: self.origin.apply(Op::Add, half_value),
            size: self.size.apply(Op::Sub, value),
            unit: self.unit,
        }
    }

    /// The rectangle made bigger by `value` on both axes about its center:
    /// the origin moves back by half of `value`, and the size gains `value`.
    pub fn expand(&self, value: Vec2<N, U>) -> (r: Rect<N, U>)
        requires
            self.unit.compatible(value.unit),
            in_range2::<N>(
                (
                    self.origin@.0 - trunc_div(value@.0, 2),
                    self.origin@.1 - trunc_div(value@.1, 2),
                ),
            ),
            in_range2::<N>((self.size@.0 + value@.0, self.size@.1 + value@.1)),
        ensures
            r.origin@ == (
                self.origin@.0 - trunc_div(value@.0, 2),
                self.origin@.1 - trunc_div(value@.1, 2),
            ),
            r.size@ == (self.size@.0 + value@.0, self.size@.1 + value@.1),
            r.unit == self.unit,
    {
        check_compatible(&self.unit, &value.unit);
        let value = value.any_unit();
        let half_value = halved(value);
        Rect {
            origin: self.origin.apply(Op::Sub, half_value),
            size: self.size.apply(Op::Add, value),
            unit: self.unit,
        }
    }

    /// The corner at the least `x` and the least `y`: the origin.
    pub fn top_left(self) -> (r: Vec2<N, U>)
        ensures
            r == (Vec2 { x: self.origin.x, y: self.origin.y, unit: self.unit }),
    {
        self.origin()
    }

    /// The corner across the width from the origin.
    pub fn top_right(self) -> (r: Vec2<N, U>)
        requires
            in_range::<N>(self.max_x()),
        ensures
            r@ == (self.max_x(), self.min_y()),
            r.unit == self.unit,
    {
        Vec2 { x: self.right(), y: self.top(), unit: self.unit }
    }

    /// The corner opposite the origin: the max corner.
    pub fn bottom_right(self) -> (r: Vec2<N, U>)
        requires
            self.has_max(),
        ensures
            r@ == (self.max_x(), self.max_y()),
            r.unit == self.unit,
    {
        self.max()
    }

    /// The corner across the height from the origin.
    pub fn bottom_left(self) -> (r: Vec2<N, U>)
        requires
            in_range::<N>(self.max_y()),
        ensures
            r@ == (self.min_x(), self.max_y()),
            r.unit == self.unit,
    {
        Vec2 { x: self.left(), y: self.bottom(), unit: self.unit }
    }

    /// The `y` of the origin.
    pub fn top(self) -> (r: N)
        ensures
            r == self.origin.y,
    {
        self.origin.y
    }

    /// The `x` of the origin.
    pub fn left(self) -> (r: N)
        ensures
            r == self.origin.x,
    {
        self.origin.x
    }

    /// The `y` of the max corner.
    pub fn bottom(self) -> (r: N)
        requires
            in_range::<N>(self.max_y()),
        ensures
            r.value() == self.max_y(),
    {
        self.origin.y.apply(Op::Add, self.size.y)
    }

    /// The `x` of the max corner.
    pub fn right(self) -> (r: N)
        requires
            in_range::<N>(self.max_x()),
        ensures
            r.value() == self.max_x(),
    {
        self.origin.x.apply(Op::Add, self.size.x)
    }

    /// The `x` of the center: the origin plus half the width, rounded
    /// toward the origin.
    pub open spec fn mid_x(self) -> int {
        self.origin@.0 + trunc_div(self.size@.0, 2)
    }

    /// The `y` of the center: the origin plus half the height, rounded
    /// toward the origin.
    pub open spec fn mid_y(self) -> int {
        self.origin@.1 + trunc_div(self.size@.1, 2)
    }

    /// The center: the origin plus half the size.
    pub fn center(self) -> (r: Vec2<N, U>)
        requires
            in_range2::<N>((self.mid_x(), self.mid_y())),
        ensures
            r@ == (self.mid_x(), self.mid_y()),
            r.unit == self.unit,
    {
        let half = halved(self.size);
        let c = self.origin.apply(Op::Add, half);
        Vec2 { x: c.x, y: c.y, unit: self.unit }
    }

    /// The middle of the edge at the origin's `y`.
    pub fn top_center(self) -> (r: Vec2<N, U>)
        requires
            in_range2::<N>((self.mid_x(), self.mid_y())),
        ensures
            r@ == (self.mid_x(), self.min_y()),
            r.unit == self.unit,
    {
        Vec2 { x: self.center().x, y: self.top(), unit: self.unit }
    }

    /// The middle of the edge at the max corner's `y`.
    pub fn bottom_center(self) -> (r: Vec2<N, U>)
        requires
            in_range2::<N>((self.mid_x(), self.mid_y())),
            in_range::<N>(self.max_y()),
        ensures
            r@ == (self.mid_x(), self.max_y()),
            r.unit == self.unit,
    {
        Vec2 { x: self.center().x, y: self.bottom(), unit: self.unit }
    }

    /// The middle of the edge at the origin's `x`.
    pub fn center_left(self) -> (r: Vec2<N, U>)
        requires
            in_range2::<N>((self.mid_x(), self.mid_y())),
        ensures
            r@ == (self.min_x(), self.mid_y()),
            r.unit == self.unit,
    {
        Vec2 { x: self.left(), y: self.center().y, unit: self.unit }
    }

    /// The middle of the edge at the max corner's `x`.
    pub fn center_right(self) -> (r: Vec2<N, U>)
        requires
            in_range2::<N>((self.mid_x(), self.mid_y())),
            in_range::<N>(self.max_x()),
        ensures
            r@ == (self.max_x(), self.mid_y()),
            r.unit == self.unit,
    {
        Vec2 { x: self.right(), y: self.center().y, unit: self.unit }
    }

    /// The min corner: the origin.
    pub fn min(self) -> (r: Vec2<N, U>)
        ensures
            r == (Vec2 { x: self.origin.x, y: self.origin.y, unit: self.unit }),
    {
        self.origin()
    }

    /// The max corner: the origin plus the size.
    pub fn max(self) -> (r: Vec2<N, U>)
        requires
            self.has_max(),
        ensures
            r@ == (self.max_x(), self.max_y()),
            r.unit == self.unit,
    {
        let m = self.max_lanes();
        Vec2 { x: m.x, y: m.y, unit: self.unit }
    }

    /// The origin.
    pub fn origin(self) -> (r: Vec2<N, U>)
        ensures
            r == (Vec2 { x: self.origin.x, y: self.origin.y, unit: self.unit }),
    {
        Vec2 { x: self.origin.x, y: self.origin.y, unit: self.unit }
    }

    /// The size.
    pub fn size(self) -> (r: Vec2<N, U>)
        ensures
            r == (Vec2 { x: self.size.x, y: self.size.y, unit: self.unit }),
    {
        Vec2 { x: self.size.x, y: self.size.y, unit: self.unit }
    }

    /// The part that the two rectangles share: from the greater of the min
    /// corners to the lesser of the max corners, lane by lane. Where the two
    /// do not overlap, the result is inverted or flat.
    pub fn intersection(&self, other: Rect<N, U>) -> (r: Rect<N, U>)
        requires
            self.unit.compatible(other.unit),
            self.has_max(),
            other.has_max(),
            in_range2::<N>(
                (
                    vstd::math::min(self.max_x(), other.max_x()) - vstd::math::max(
                        self.min_x(),
                        other.min_x(),
                    ),
                    vstd::math::min(self.max_y(), other.max_y()) - vstd::math::max(
                        self.min_y(),
                        other.min_y(),
                    ),
                ),
            ),
        ensures
            r.min_x() == vstd::math::max(self.min_x(), other.min_x()),
            r.min_y() == vstd::math::max(self.min_y(), other.min_y()),
            r.max_x() == vstd::math::min(self.max_x(), other.max_x()),
            r.max_y() == vstd::math::min(self.max_y(), other.max_y()),
            r.unit == self.unit,
    {
        check_compatible(&self.unit, &other.unit);
        let new_min = self.origin.max(other.origin);
        let new_max = self.max_lanes().min(other.max_lanes());
        Rect { origin: new_min, size: new_max.apply(Op::Sub, new_min), unit: self.unit }
    }

    /// Applies `op` to the origins and to the sizes of `self` and `rhs`,
    /// which carry compatible tags.
    pub fn apply(self, op: Op, rhs: Rect<N, U>) -> (r: Rect<N, U>)
        requires
            self.unit.compatible(rhs.unit),
            defined2::<N>(op, self.origin@, rhs.origin@),
            defined2::<N>(op, self.size@, rhs.size@),
        ensures
            r.origin@ == eval2(op, self.origin@, rhs.origin@),
            r.size@ == eval2(op, self.size@, rhs.size@),
            r.unit == self.unit,
    {
        check_compatible(&self.unit, &rhs.unit);
        Rect {
            origin: self.origin.apply(op, rhs.origin),
            size: self.size.apply(op, rhs.size),
            unit: self.unit,
        }
    }

    /// Applies `op` to the origin and `rhs`, and to the size and `rhs`. The
    /// tags are compatible.
    pub fn apply_vec(self, op: Op, rhs: Vec2<N, U>) -> (r: Rect<N, U>)
        requires
            self.unit.compatible(rhs.unit),
            defined2::<N>(op, self.origin@, rhs@),
            defined2::<N>(op, self.size@, rhs@),
        ensures
            r.origin@ == eval2(op, self.origin@, rhs@),
            r.size@ == eval2(op, self.size@, rhs@),
            r.unit == self.unit,
    {
        check_compatible(&self.unit, &rhs.unit);
        let rhs = rhs.any_unit();
        Rect {
            origin: self.origin.apply(op, rhs),
            size: self.size.apply(op, rhs),
            unit: self.unit,
        }
    }

    /// Applies `op` to each of the four lanes and the bare number `rhs`.
    pub fn apply_scalar(self, op: Op, rhs: N) -> (r: Rect<N, U>)
        requires
            defined2::<N>(op, self.origin@, (rhs.value(), rhs.value())),
            defined2::<N>(op, self.size@, (rhs.value(), rhs.value())),
        ensures
            r.origin@ == eval2(op, self.origin@, (rhs.value(), rhs.value())),
            r.size@ == eval2(op, self.size@, (rhs.value(), rhs.value())),
            r.unit == self.unit,
    {
        Rect {
            origin: self.origin.apply_scalar(op, rhs),
            size: self.size.apply_scalar(op, rhs),
            unit: self.unit,
        }
    }

    /// Replaces `self` by `self.apply(op, rhs)`.
    pub fn apply_assign(&mut self, op: Op, rhs: Rect<N, U>)
        requires
            old(self).unit.compatible(rhs.unit),
            defined2::<N>(op, old(self).origin@, rhs.origin@),
            defined2::<N>(op, old(self).size@, rhs.size@),
        ensures
            final(self).origin@ == eval2(op, old(self).origin@, rhs.origin@),
            final(self).size@ == eval2(op, old(self).size@, rhs.size@),
            final(self).unit == old(self).unit,
    {
        *self = self.apply(op, rhs);
    }

    /// Replaces `self` by `self.apply_vec(op, rhs)`.
    pub fn apply_vec_assign(&mut self, op: Op, rhs: Vec2<N, U>)
        requires
            old(self).unit.compatible(rhs.unit),
            defined2::<N>(op, old(self).origin@, rhs@),
            defined2::<N>(op, old(self).size@, rhs@),
        ensures
            final(self).origin@ == eval2(op, old(self).origin@, rhs@),
            final(self).size@ == eval2(op, old(self).size@, rhs@),
            final(self).unit == old(self).unit,
    {
        *self = self.apply_vec(op, rhs);
    }

    /// Replaces `self` by `self.apply_scalar(op, rhs)`.
    pub fn apply_scalar_assign(&mut self, op: Op, rhs: N)
        requires
            defined2::<N>(op, old(self).origin@, (rhs.value(), rhs.value())),
            defined2::<N>(op, old(self).size@, (rhs.value(), rhs.value())),
        ensures
            final(self).origin@ == eval2(op, old(self).origin@, (rhs.value(), rhs.value())),
            final(self).size@ == eval2(op, old(self).size@, (rhs.value(), rhs.value())),
            final(self).unit == old(self).unit,
    {
        *self = self.apply_scalar(op, rhs);
    }

    /// The lanes of the max corner.
    fn max_lanes(&self) -> (r: Vec2<N>)
        requires
            self.has_max(),
        ensures
            r@ == (self.max_x(), self.max_y()),
    {
        self.origin.apply(Op::Add, self.size)
    }

    /// Whether the point with the lanes `pos` lies in the rectangle.
    fn holds_lanes(&self, pos: Vec2<N>) -> (r: bool)
        requires
            self.has_max(),
        ensures
            r == self.holds(pos@),
    {
        let min = self.origin;
        let max = self.max_lanes();
        at_most(min.x, pos.x) && at_most(pos.x, max.x) && at_most(min.y, pos.y) && at_most(
            pos.y,
            max.y,
        )
    }
}

/// Both lanes of `v` halved, rounded toward zero.
fn halved<N: Number>(v: Vec2<N>) -> (r: Vec2<N>)
    ensures
        r@ == (trunc_div(v@.0, 2), trunc_div(v@.1, 2)),
{
    Vec2 { x: v.x.half(), y: v.y.half(), unit: () }
}

} // verus!
