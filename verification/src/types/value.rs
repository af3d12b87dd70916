//! A single reading tagged with a unit.
use vstd::prelude::*;
use crate::number::{cast, defined, narrow, Number, Op};
use crate::unit::{check_compatible, Unit, UnitCompatibility};

verus! {

/// One reading of type `N` with the unit tag `U`.
#[derive(Copy, Debug)]
pub struct Value<N: Number, U: Unit + Copy = ()> {
    pub value: N,
    pub unit: U,
}

impl<N: Number, U: Unit + Copy> Clone for Value<N, U> {
    /// A copy of the reading.
    fn clone(&self) -> (r: Self)
        ensures
            r == *self,
    {
        *self
    }
}

impl<N: Number, U: Unit + Copy> View for Value<N, U> {
    type V = int;

    /// The integer that the reading stands for.
    open spec fn view(&self) -> int {
        self.value.value()
    }
}

impl<N: Number> Value<N> {
    /// A reading without a unit.
    pub fn new_any(value: N) -> (r: Value<N>)
        ensures
            r == (Value { value, unit: () }),
    {
        Self::new_u(value, ())
    }
}

impl<N: Number, U: Unit + Copy + Default> Value<N, U> {
    /// A reading with the default tag of `U`.
    pub fn new(value: N) -> (r: Value<N, U>)
        ensures
            r.value == value,
            call_ensures(U::default, (), r.unit),
    {
        Self::new_u(value, U::default())
    }
}

impl<N: Number, U: Unit + Copy> Value<N, U> {
    /// A reading with the tag `unit`.
    pub fn new_u(value: N, unit: U) -> (r: Value<N, U>)
        ensures
            r == (Value { value, unit }),
    {
        Value { value, unit }
    }

    /// Whether `op` has a result on `self` and a reading of `rhs`.
    pub open spec fn defined(self, op: Op, rhs: int) -> bool {
        defined::<N>(op, self@, rhs)
    }

    /// Applies `op` to `self` and `rhs`, which carry compatible tags. The
    /// result keeps the tag of `self`.
    pub fn apply(self, op: Op, rhs: Value<N, U>) -> (r: Value<N, U>)
        requires
            self.unit.compatible(rhs.unit),
            self.defined(op, rhs@),
        ensures
            r@ == op.eval(self@, rhs@),
            r.unit == self.unit,
    {
        check_compatible(&self.unit, &rhs.unit);
        Value { value: self.value.apply(op, rhs.value), unit: self.unit }
    }

    /// Applies `op` to `self` and the bare number `rhs`. No tag is checked.
    pub fn apply_scalar(self, op: Op, rhs: N) -> (r: Value<N, U>)
        requires
            self.defined(op, rhs.value()),
        ensures
            r@ == op.eval(self@, rhs.value()),
            r.unit == self.unit,
    {
        Value { value: self.value.apply(op, rhs), unit: self.unit }
    }

    /// Replaces `self` by `self.apply(op, rhs)`.
    pub fn apply_assign(&mut self, op: Op, rhs: Value<N, U>)
        requires
            old(self).unit.compatible(rhs.unit),
            old(self).defined(op, rhs@),
        ensures
            final(self)@ == op.eval(old(self)@, rhs@),
            final(self).unit == old(self).unit,
    {
        *self = self.apply(op, rhs);
    }

    /// Replaces `self` by `self.apply_scalar(op, rhs)`.
    pub fn apply_scalar_assign(&mut self, op: Op, rhs: N)
        requires
            old(self).defined(op, rhs.value()),
        ensures
            final(self)@ == op.eval(old(self)@, rhs.value()),
            final(self).unit == old(self).unit,
    {
        *self = self.apply_scalar(op, rhs);
    }

    /// Whether the interpolation from `from` to `to` at `t` stays in `N` at
    /// every step: the difference, its product with `t`, and the sum.
    pub open spec fn lerp_defined(from: int, to: int, t: int) -> bool {
        &&& defined::<N>(Op::Sub, to, from)
        &&& defined::<N>(Op::Mul, to - from, t)
        &&& defined::<N>(Op::Add, (to - from) * t, from)
    }

    /// The reading between `self` and `other` at `t`, where 0 gives `self`
    /// and 1 gives `other`: `self + (other - self) * t`.
    pub fn lerp(self, other: Value<N, U>, t: N) -> (r: Value<N, U>)
        requires
            self.unit.compatible(other.unit),
            Self::lerp_defined(self@, other@, t.value()),
        ensures
            r@ == self@ + (other@ - self@) * t.value(),
            r.unit == self.unit,
    {
        check_compatible(&self.unit, &other.unit);
        let diff = other.value.apply(Op::Sub, self.value);
        let part = diff.apply(Op::Mul, t);
        Value { value: part.apply(Op::Add, self.value), unit: self.unit }
    }

    /// The same reading in the lane type `NO`, where `NO` holds it.
    pub fn cast<NO: Number>(self) -> (r: Option<Value<NO, U>>)
        ensures
            r == match narrow::<NO>(self@) {
                Some(value) => Some(Value { value, unit: self.unit }),
                None => None,
            },
            r matches Some(v) ==> v@ == self@,
    {
        match cast::<N, NO>(self.value) {
            Some(value) => Some(Value { value, unit: self.unit }),
            None => None,
        }
    }

    /// The reading in the unit `to`, or nothing where `N` does not hold it.
    pub open spec fn converted_to<UO: UnitCompatibility<N, U>>(self, to: UO) -> Option<
        Value<N, UO>,
    > {
        match to.converted(self.value, self.unit) {
            Some(value) => Some(Value { value, unit: to }),
            None => None,
        }
    }

    /// Converts the reading to the default tag of the unit `UO`.
    pub fn convert_def<UO: UnitCompatibility<N, U> + Default>(self) -> (r: Option<Value<N, UO>>)
        ensures
            exists|to: UO| call_ensures(UO::default, (), to) && r == self.converted_to(to),
    {
        self.convert_u(UO::default())
    }

    /// Converts the reading to the unit `to`.
    pub fn convert_u<UO: UnitCompatibility<N, U>>(self, to: UO) -> (r: Option<Value<N, UO>>)
        ensures
            r == self.converted_to(to),
    {
        match to.convert_value(self.value, self.unit) {
            Some(value) => Some(Value { value, unit: to }),
            None => None,
        }
    }

    /// The same reading without its unit.
    pub fn any_unit(self) -> (r: Value<N, ()>)
        ensures
            r == (Value { value: self.value, unit: () }),
    {
        Value { value: self.value, unit: () }
    }

    /// The tag.
    pub fn unit(self) -> (u: U)
        ensures
            u == self.unit,
    {
        self.unit
    }

    /// The bare number.
    pub fn val(self) -> (v: N)
        ensures
            v == self.value,
    {
        self.value
    }
}

} // verus!
