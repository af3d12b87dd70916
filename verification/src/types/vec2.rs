//! A pair of readings that share one unit.
use vstd::prelude::*;
use vstd::pervasive::unreached;
use crate::number::{
    cast, defined, greater, in_range, lesser, narrow, trunc_div, Number, Op, Ranged,
};
use crate::types::value::Value;
use crate::unit::{check_compatible, Unit, UnitCompatibility};

verus! {

/// Two lanes `x` and `y` of type `N` under the one unit tag `U`.
#[derive(Copy, Debug)]
pub struct Vec2<N: Number, U: Unit + Copy = ()> {
    pub x: N,
    pub y: N,
    pub unit: U,
}

/// The longer name of [`Vec2`].
pub type Vec2D<N, U> = Vec2<N, U>;

impl<N: Number, U: Unit + Copy> Clone for Vec2<N, U> {
    /// A copy of the vector.
    fn clone(&self) -> (r: Self)
        ensures
            r == *self,
    {
        *self
    }
}

impl<N: Number, U: Unit + Copy> View for Vec2<N, U> {
    type V = (int, int);

    /// The integers that the lanes stand for, `x` first.
    open spec fn view(&self) -> (int, int) {
        (self.x.value(), self.y.value())
    }
}

/// `op` applied lane by lane.
pub open spec fn eval2(op: Op, a: (int, int), b: (int, int)) -> (int, int) {
    (op.eval(a.0, b.0), op.eval(a.1, b.1))
}

/// Whether `op` has a result in `N` on both lanes.
pub open spec fn defined2<N: Ranged>(op: Op, a: (int, int), b: (int, int)) -> bool {
    defined::<N>(op, a.0, b.0) && defined::<N>(op, a.1, b.1)
}

/// Whether `N` holds both integers.
pub open spec fn in_range2<N: Ranged>(a: (int, int)) -> bool {
    in_range::<N>(a.0) && in_range::<N>(a.1)
}

impl<N: Number> Vec2<N> {
    /// A vector without a unit.
    pub fn new_any(x: N, y: N) -> (r: Vec2<N>)
        ensures
            r == (Vec2 { x, y, unit: () }),
    {
        Vec2 { x, y, unit: () }
    }
}

impl<N: Number, U: Unit + Copy + Default> Vec2<N, U> {
    /// A vector with the default tag of `U`.
    pub fn new(x: N, y: N) -> (r: Vec2<N, U>)
        ensures
            r.x == x,
            r.y == y,
            call_ensures(U::default, (), r.unit),
    {
        Vec2 { x, y, unit: U::default() }
    }

    /// A vector with `v` on both lanes.
    pub fn split(v: N) -> (r: Vec2<N, U>)
        ensures
            r.x == v,
            r.y == v,
            call_ensures(U::default, (), r.unit),
    {
        Vec2 { x: v, y: v, unit: U::default() }
    }

    /// The vector of zeros.
    pub fn zero() -> (r: Vec2<N, U>)
        ensures
            r@ == (0int, 0int),
            call_ensures(U::default, (), r.unit),
    {
        Vec2 { x: N::zero(), y: N::zero(), unit: U::default() }
    }

    /// The vector of ones.
    pub fn one() -> (r: Vec2<N, U>)
        ensures
            r@ == (1int, 1int),
            call_ensures(U::default, (), r.unit),
    {
        Vec2 { x: N::one(), y: N::one(), unit: U::default() }
    }
}

impl<N: Number, U: Unit + Copy> Vec2<N, U> {
    /// A vector with the tag `unit`.
    pub fn new_u(x: N, y: N, unit: U) -> (r: Vec2<N, U>)
        ensures
            r == (Vec2 { x, y, unit }),
    {
        Vec2 { x, y, unit }
    }

    /// The tag.
    pub fn unit(self) -> (u: U)
        ensures
            u == self.unit,
    {
        self.unit
    }

    /// The same vector without its unit.
    pub fn any_unit(self) -> (r: Vec2<N, ()>)
        ensures
            r == (Vec2 { x: self.x, y: self.y, unit: () }),
    {
        Vec2 { x: self.x, y: self.y, unit: () }
    }

    /// The same lanes in the lane type `NO`, which holds both.
    pub fn cast<NO: Number>(self) -> (r: Vec2<NO, U>)
        requires
            in_range2::<NO>(self@),
        ensures
            r@ == self@,
            r.unit == self.unit,
    {
        match self.try_cast::<NO>() {
            Some(v) => v,
            None => unreached(),
        }
    }

    /// The same lanes in the lane type `NO`, or nothing where `NO` does not
    /// hold one of them.
    pub open spec fn spec_try_cast<NO: Number>(self) -> Option<Vec2<NO, U>> {
        match (narrow::<NO>(self@.0), narrow::<NO>(self@.1)) {
            (Some(x), Some(y)) => Some(Vec2 { x, y, unit: self.unit }),
            _ => None,
        }
    }

    /// The same lanes in the lane type `NO`, or `None` where `NO` does not
    /// hold one of them.
    pub fn try_cast<NO: Number>(self) -> (r: Option<Vec2<NO, U>>)
        ensures
            r == self.spec_try_cast::<NO>(),
            r matches Some(v) ==> v@ == self@,
    {
        match cast::<N, NO>(self.x) {
            Some(x) => match cast::<N, NO>(self.y) {
                Some(y) => Some(Vec2 { x, y, unit: self.unit }),
                None => None,
            },
            None => None,
        }
    }

    /// The vector in the unit `to`, or nothing where `N` does not hold one
    /// of the converted lanes.
    pub open spec fn converted_to<UO: UnitCompatibility<N, U>>(self, to: UO) -> Option<
        Vec2<N, UO>,
    > {
        match (to.converted(self.x, self.unit), to.converted(self.y, self.unit)) {
            (Some(x), Some(y)) => Some(Vec2 { x, y, unit: to }),
            _ => None,
        }
    }

    /// Converts both lanes to the default tag of the unit `UO`, in which
    /// `N` holds them.
    pub fn convert<UO: UnitCompatibility<N, U> + Default>(self) -> (r: Vec2<N, UO>)
        requires
            forall|to: UO| call_ensures(UO::default, (), to) ==> self.converted_to(to).is_some(),
        ensures
            exists|to: UO| call_ensures(UO::default, (), to) && Some(r) == self.converted_to(to),
    {
        self.convert_u(UO::default())
    }

    /// Converts both lanes to the default tag of the unit `UO`, or gives
    /// `None` where `N` does not hold one of them.
    pub fn try_convert<UO: UnitCompatibility<N, U> + Default>(self) -> (r: Option<Vec2<N, UO>>)
        ensures
            exists|to: UO| call_ensures(UO::default, (), to) && r == self.converted_to(to),
    {
        self.try_convert_u(UO::default())
    }

    /// Converts both lanes to the unit `to`, in which `N` holds them.
    pub fn convert_u<UO: UnitCompatibility<N, U>>(self, to: UO) -> (r: Vec2<N, UO>)
        requires
            self.converted_to(to).is_some(),
        ensures
            Some(r) == self.converted_to(to),
    {
        match self.try_convert_u(to) {
            Some(v) => v,
            None => unreached(),
        }
    }

    /// Converts both lanes to the unit `to`, or gives `None` where `N` does
    /// not hold one of them.
    pub fn try_convert_u<UO: UnitCompatibility<N, U>>(self, to: UO) -> (r: Option<Vec2<N, UO>>)
        ensures
            r == self.converted_to(to),
    {
        to.convert_pos2(self)
    }

    /// Whether `func` holds of a lane. `func` is tried on `x` first and on
    /// `y` only where it failed on `x`.
    pub fn any(self, func: impl Fn(N) -> bool) -> (r: bool)
        requires
            call_requires(func, (self.x,)),
            call_requires(func, (self.y,)),
        ensures
            r ==> call_ensures(func, (self.x,), true) || call_ensures(func, (self.y,), true),
            !r ==> call_ensures(func, (self.x,), false) && call_ensures(func, (self.y,), false),
    {
        func(self.x) || func(self.y)
    }

    /// Whether `func` holds of both lanes. `func` is tried on `x` first and
    /// on `y` only where it held of `x`.
    pub fn all(self, func: impl Fn(N) -> bool) -> (r: bool)
        requires
            call_requires(func, (self.x,)),
            call_requires(func, (self.y,)),
        ensures
            r ==> call_ensures(func, (self.x,), true) && call_ensures(func, (self.y,), true),
            !r ==> call_ensures(func, (self.x,), false) || call_ensures(func, (self.y,), false),
    {
        func(self.x) && func(self.y)
    }

    /// The vector of what `func` makes of each lane.
    pub fn map<NO: Number>(self, func: impl Fn(N) -> NO) -> (r: Vec2<NO, U>)
        requires
            call_requires(func, (self.x,)),
            call_requires(func, (self.y,)),
        ensures
            call_ensures(func, (self.x,), r.x),
            call_ensures(func, (self.y,), r.y),
            r.unit == self.unit,
    {
        Vec2 { x: func(self.x), y: func(self.y), unit: self.unit }
    }

    /// The vector with what `func` makes of `x`, and `y` as it is.
    pub fn map_x(self, func: impl FnOnce(N) -> N) -> (r: Vec2<N, U>)
        requires
            call_requires(func, (self.x,)),
        ensures
            call_ensures(func, (self.x,), r.x),
            r.y == self.y,
            r.unit == self.unit,
    {
        Vec2 { x: func(self.x), y: self.y, unit: self.unit }
    }

    /// The vector with `x` as it is, and what `func` makes of `y`.
    pub fn map_y(self, func: impl FnOnce(N) -> N) -> (r: Vec2<N, U>)
        requires
            call_requires(func, (self.y,)),
        ensures
            r.x == self.x,
            call_ensures(func, (self.y,), r.y),
            r.unit == self.unit,
    {
        Vec2 { x: self.x, y: func(self.y), unit: self.unit }
    }

    /// The vector with the `x` of `other` and the `y` of `self`.
    pub fn move_x(self, other: Vec2<N, U>) -> (r: Vec2<N, U>)
        requires
            self.unit.compatible(other.unit),
        ensures
            r == (Vec2 { x: other.x, y: self.y, unit: self.unit }),
    {
        check_compatible(&self.unit, &other.unit);
        Vec2 { x: other.x, y: self.y, unit: self.unit }
    }

    /// The vector with the `x` of `self` and the `y` of `other`.
    pub fn move_y(self, other: Vec2<N, U>) -> (r: Vec2<N, U>)
        requires
            self.unit.compatible(other.unit),
        ensures
            r == (Vec2 { x: self.x, y: other.y, unit: self.unit }),
    {
        check_compatible(&self.unit, &other.unit);
        Vec2 { x: self.x, y: other.y, unit: self.unit }
    }

    /// `op` applied to the lane `x` and the lane `y`, in that order.
    pub fn reduce(self, op: Op) -> (r: Value<N, U>)
        requires
            defined::<N>(op, self@.0, self@.1),
        ensures
            r@ == op.eval(self@.0, self@.1),
            r.unit == self.unit,
    {
        Value { value: self.x.apply(op, self.y), unit: self.unit }
    }

    /// The sum `x + y`.
    pub fn add_xy(self) -> (r: Value<N, U>)
        requires
            defined::<N>(Op::Add, self@.0, self@.1),
        ensures
            r@ == self@.0 + self@.1,
            r.unit == self.unit,
    {
        self.reduce(Op::Add)
    }

    /// The difference `x - y`.
    pub fn sub_xy(self) -> (r: Value<N, U>)
        requires
            defined::<N>(Op::Sub, self@.0, self@.1),
        ensures
            r@ == self@.0 - self@.1,
            r.unit == self.unit,
    {
        self.reduce(Op::Sub)
    }

    /// The product `x * y`.
    pub fn mul_xy(self) -> (r: Value<N, U>)
        requires
            defined::<N>(Op::Mul, self@.0, self@.1),
        ensures
            r@ == self@.0 * self@.1,
            r.unit == self.unit,
    {
        self.reduce(Op::Mul)
    }

    /// The quotient `x / y`, rounded toward zero.
    pub fn div_xy(self) -> (r: Value<N, U>)
        requires
            defined::<N>(Op::Div, self@.0, self@.1),
        ensures
            r@ == trunc_div(self@.0, self@.1),
            r.unit == self.unit,
    {
        self.reduce(Op::Div)
    }

    /// The quotient `y / x`, rounded toward zero.
    pub fn div_yx(self) -> (r: Value<N, U>)
        requires
            defined::<N>(Op::Div, self@.1, self@.0),
        ensures
            r@ == trunc_div(self@.1, self@.0),
            r.unit == self.unit,
    {
        self.yx().reduce(Op::Div)
    }

    /// The lane `x`.
    pub fn x(self) -> (r: Value<N, U>)
        ensures
            r == (Value { value: self.x, unit: self.unit }),
    {
        Value { value: self.x, unit: self.unit }
    }

    /// The lane `y`.
    pub fn y(self) -> (r: Value<N, U>)
        ensures
            r == (Value { value: self.y, unit: self.unit }),
    {
        Value { value: self.y, unit: self.unit }
    }

    /// The vector itself.
    pub fn xy(self) -> (r: Vec2<N, U>)
        ensures
            r == self,
    {
        self
    }

    /// The vector with its lanes swapped.
    pub fn yx(self) -> (r: Vec2<N, U>)
        ensures
            r == (Vec2 { x: self.y, y: self.x, unit: self.unit }),
    {
        Vec2 { x: self.y, y: self.x, unit: self.unit }
    }

    /// The lesser of the two lanes.
    pub fn min_val(self) -> (r: Value<N, U>)
        ensures
            r.value == (if self@.0 <= self@.1 { self.x } else { self.y }),
            r.unit == self.unit,
    {
        Value { value: lesser(self.x, self.y), unit: self.unit }
    }

    /// The greater of the two lanes.
    pub fn max_val(self) -> (r: Value<N, U>)
        ensures
            r.value == (if self@.0 >= self@.1 { self.x } else { self.y }),
            r.unit == self.unit,
    {
        Value { value: greater(self.x, self.y), unit: self.unit }
    }

    /// Lane by lane, the lesser of `self` and `other`.
    pub fn min(self, other: Vec2<N, U>) -> (r: Vec2<N, U>)
        requires
            self.unit.compatible(other.unit),
        ensures
            r.x == (if self@.0 <= other@.0 { self.x } else { other.x }),
            r.y == (if self@.1 <= other@.1 { self.y } else { other.y }),
            r.unit == self.unit,
    {
        check_compatible(&self.unit, &other.unit);
        Vec2 { x: lesser(self.x, other.x), y: lesser(self.y, other.y), unit: self.unit }
    }

    /// Lane by lane, the greater of `self` and `other`.
    pub fn max(self, other: Vec2<N, U>) -> (r: Vec2<N, U>)
        requires
            self.unit.compatible(other.unit),
        ensures
            r.x == (if self@.0 >= other@.0 { self.x } else { other.x }),
            r.y == (if self@.1 >= other@.1 { self.y } else { other.y }),
            r.unit == self.unit,
    {
        check_compatible(&self.unit, &other.unit);
        Vec2 { x: greater(self.x, other.x), y: greater(self.y, other.y), unit: self.unit }
    }

    /// Lane by lane, the reading between `self` and `other` at `t`, where 0
    /// gives `self` and 1 gives `other`: `self + (other - self) * t`.
    pub fn lerp(self, other: Vec2<N, U>, t: N) -> (r: Vec2<N, U>)
        requires
            self.unit.compatible(other.unit),
            Value::<N, U>::lerp_defined(self@.0, other@.0, t.value()),
            Value::<N, U>::lerp_defined(self@.1, other@.1, t.value()),
        ensures
            r@.0 == self@.0 + (other@.0 - self@.0) * t.value(),
            r@.1 == self@.1 + (other@.1 - self@.1) * t.value(),
            r.unit == self.unit,
    {
        let x = self.x().lerp(other.x(), t);
        let y = self.y().lerp(other.y(), t);
        Vec2 { x: x.value, y: y.value, unit: self.unit }
    }

    /// The vector with both lanes negated.
    pub fn negated(self) -> (r: Vec2<N, U>)
        requires
            in_range2::<N>((-self@.0, -self@.1)),
        ensures
            r@ == (-self@.0, -self@.1),
            r.unit == self.unit,
    {
        let zero = N::zero();
        Vec2 { x: zero.apply(Op::Sub, self.x), y: zero.apply(Op::Sub, self.y), unit: self.unit }
    }

    /// Applies `op` lane by lane to `self` and `rhs`, which carry compatible
    /// tags. The result keeps the tag of `self`.
    pub fn apply(self, op: Op, rhs: Vec2<N, U>) -> (r: Vec2<N, U>)
        requires
            self.unit.compatible(rhs.unit),
            defined2::<N>(op, self@, rhs@),
        ensures
            r@ == eval2(op, self@, rhs@),
            r.unit == self.unit,
    {
        check_compatible(&self.unit, &rhs.unit);
        Vec2 { x: self.x.apply(op, rhs.x), y: self.y.apply(op, rhs.y), unit: self.unit }
    }

    /// Applies `op` to each lane and the bare number `rhs`. No tag is checked.
    pub fn apply_scalar(self, op: Op, rhs: N) -> (r: Vec2<N, U>)
        requires
            defined2::<N>(op, self@, (rhs.value(), rhs.value())),
        ensures
            r@ == eval2(op, self@, (rhs.value(), rhs.value())),
            r.unit == self.unit,
    {
        Vec2 { x: self.x.apply(op, rhs), y: self.y.apply(op, rhs), unit: self.unit }
    }

    /// Replaces `self` by `self.apply(op, rhs)`.
    pub fn apply_assign(&mut self, op: Op, rhs: Vec2<N, U>)
        requires
            old(self).unit.compatible(rhs.unit),
            defined2::<N>(op, old(self)@, rhs@),
        ensures
            final(self)@ == eval2(op, old(self)@, rhs@),
            final(self).unit == old(self).unit,
    {
        *self = self.apply(op, rhs);
    }

    /// Replaces `self` by `self.apply_scalar(op, rhs)`.
    pub fn apply_scalar_assign(&mut self, op: Op, rhs: N)
        requires
            defined2::<N>(op, old(self)@, (rhs.value(), rhs.value())),
        ensures
            final(self)@ == eval2(op, old(self)@, (rhs.value(), rhs.value())),
            final(self).unit == old(self).unit,
    {
        *self = self.apply_scalar(op, rhs);
    }
}

} // verus!
