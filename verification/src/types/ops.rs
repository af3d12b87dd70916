//! The arithmetic operators of the carriers: `+ - * / %` between two
//! carriers of compatible tags, and between a carrier and a bare number.
//! What an operator demands is its `_req`; what it returns is stated on the
//! method, over the readings, since no expression names the result itself.
use vstd::prelude::*;
use vstd::std_specs::ops::{
    AddSpecImpl, DivSpecImpl, MulSpecImpl, NegSpecImpl, RemSpecImpl, SubSpecImpl,
};
use crate::number::{defined, Number, Op};
use crate::types::rect::Rect;
use crate::types::value::Value;
use crate::types::vec2::{defined2, eval2, in_range2, Vec2};
use crate::unit::Unit;

verus! {

impl<N: Number, U: Unit + Copy> core::ops::Add for Value<N, U> {
    type Output = Value<N, U>;

    /// The sum of two readings of compatible tags.
    fn add(self, rhs: Value<N, U>) -> (r: Value<N, U>)
        ensures
            r@ == Op::Add.eval(self@, rhs@),
            r.unit == self.unit,
    {
        self.apply(Op::Add, rhs)
    }
}

impl<N: Number, U: Unit + Copy> AddSpecImpl for Value<N, U> {
    open spec fn obeys_add_spec() -> bool {
        false
    }

    open spec fn add_req(self, rhs: Value<N, U>) -> bool {
        self.unit.compatible(rhs.unit) && defined::<N>(Op::Add, self@, rhs@)
    }

    open spec fn add_spec(self, rhs: Value<N, U>) -> Value<N, U> {
        arbitrary()
    }
}

impl<N: Number, U: Unit + Copy> core::ops::Add<N> for Value<N, U> {
    type Output = Value<N, U>;

    /// The sum of a reading and a bare number.
    fn add(self, rhs: N) -> (r: Value<N, U>)
        ensures
            r@ == Op::Add.eval(self@, rhs.value()),
            r.unit == self.unit,
    {
        self.apply_scalar(Op::Add, rhs)
    }
}

impl<N: Number, U: Unit + Copy> AddSpecImpl<N> for Value<N, U> {
    open spec fn obeys_add_spec() -> bool {
        false
    }

    open spec fn add_req(self, rhs: N) -> bool {
        defined::<N>(Op::Add, self@, rhs.value())
    }

    open spec fn add_spec(self, rhs: N) -> Value<N, U> {
        arbitrary()
    }
}

impl<N: Number, U: Unit + Copy> core::ops::Add for Vec2<N, U> {
    type Output = Vec2<N, U>;

    /// Lane by lane, the sum of two vectors of compatible tags.
    fn add(self, rhs: Vec2<N, U>) -> (r: Vec2<N, U>)
        ensures
            r@ == eval2(Op::Add, self@, rhs@),
            r.unit == self.unit,
    {
        self.apply(Op::Add, rhs)
    }
}

impl<N: Number, U: Unit + Copy> AddSpecImpl for Vec2<N, U> {
    open spec fn obeys_add_spec() -> bool {
        false
    }

    open spec fn add_req(self, rhs: Vec2<N, U>) -> bool {
        self.unit.compatible(rhs.unit) && defined2::<N>(Op::Add, self@, rhs@)
    }

    open spec fn add_spec(self, rhs: Vec2<N, U>) -> Vec2<N, U> {
        arbitrary()
    }
}

impl<N: Number, U: Unit + Copy> core::ops::Add<N> for Vec2<N, U> {
    type Output = Vec2<N, U>;

    /// The sum of each lane and a bare number.
    fn add(self, rhs: N) -> (r: Vec2<N, U>)
        ensures
            r@ == eval2(Op::Add, self@, (rhs.value(), rhs.value())),
            r.unit == self.unit,
    {
        self.apply_scalar(Op::Add, rhs)
    }
}

impl<N: Number, U: Unit + Copy> AddSpecImpl<N> for Vec2<N, U> {
    open spec fn obeys_add_spec() -> bool {
        false
    }

    open spec fn add_req(self, rhs: N) -> bool {
        defined2::<N>(Op::Add, self@, (rhs.value(), rhs.value()))
    }

    open spec fn add_spec(self, rhs: N) -> Vec2<N, U> {
        arbitrary()
    }
}

impl<N: Number, U: Unit + Copy> core::ops::Add for Rect<N, U> {
    type Output = Rect<N, U>;

    /// The sum of the origins and that of the sizes of two rectangles
    /// of compatible tags.
    fn add(self, rhs: Rect<N, U>) -> (r: Rect<N, U>)
        ensures
            r.origin@ == eval2(Op::Add, self.origin@, rhs.origin@),
            r.size@ == eval2(Op::Add, self.size@, rhs.size@),
            r.unit == self.unit,
    {
        self.apply(Op::Add, rhs)
    }
}

impl<N: Number, U: Unit + Copy> AddSpecImpl for Rect<N, U> {
    open spec fn obeys_add_spec() -> bool {
        false
    }

    open spec fn add_req(self, rhs: Rect<N, U>) -> bool {
        &&& self.unit.compatible(rhs.unit)
        &&& defined2::<N>(Op::Add, self.origin@, rhs.origin@)
        &&& defined2::<N>(Op::Add, self.size@, rhs.size@)
    }

    open spec fn add_spec(self, rhs: Rect<N, U>) -> Rect<N, U> {
        arbitrary()
    }
}

impl<N: Number, U: Unit + Copy> core::ops::Add<Vec2<N, U>> for Rect<N, U> {
    type Output = Rect<N, U>;

    /// The sum of the origin and a vector, and that of the size and
    /// the same vector, of a compatible tag.
    fn add(self, rhs: Vec2<N, U>) -> (r: Rect<N, U>)
        ensures
            r.origin@ == eval2(Op::Add, self.origin@, rhs@),
            r.size@ == eval2(Op::Add, self.size@, rhs@),
            r.unit == self.unit,
    {
        self.apply_vec(Op::Add, rhs)
    }
}

impl<N: Number, U: Unit + Copy> AddSpecImpl<Vec2<N, U>> for Rect<N, U> {
    open spec fn obeys_add_spec() -> bool {
        false
    }

    open spec fn add_req(self, rhs: Vec2<N, U>) -> bool {
        &&& self.unit.compatible(rhs.unit)
        &&& defined2::<N>(Op::Add, self.origin@, rhs@)
        &&& defined2::<N>(Op::Add, self.size@, rhs@)
    }

    open spec fn add_spec(self, rhs: Vec2<N, U>) -> Rect<N, U> {
        arbitrary()
    }
}

impl<N: Number, U: Unit + Copy> core::ops::Add<N> for Rect<N, U> {
    type Output = Rect<N, U>;

    /// The sum of each of the four lanes and a bare number.
    fn add(self, rhs: N) -> (r: Rect<N, U>)
        ensures
            r.origin@ == eval2(Op::Add, self.origin@, (rhs.value(), rhs.value())),
            r.size@ == eval2(Op::Add, self.size@, (rhs.value(), rhs.value())),
            r.unit == self.unit,
    {
        self.apply_scalar(Op::Add, rhs)
    }
}

impl<N: Number, U: Unit + Copy> AddSpecImpl<N> for Rect<N, U> {
    open spec fn obeys_add_spec() -> bool {
        false
    }

    open spec fn add_req(self, rhs: N) -> bool {
        &&& defined2::<N>(Op::Add, self.origin@, (rhs.value(), rhs.value()))
        &&& defined2::<N>(Op::Add, self.size@, (rhs.value(), rhs.value()))
    }

    open spec fn add_spec(self, rhs: N) -> Rect<N, U> {
        arbitrary()
    }
}

impl<N: Number, U: Unit + Copy> core::ops::Sub for Value<N, U> {
    type Output = Value<N, U>;

    /// The difference of two readings of compatible tags.
    fn sub(self, rhs: Value<N, U>) -> (r: Value<N, U>)
        ensures
            r@ == Op::Sub.eval(self@, rhs@),
            r.unit == self.unit,
    {
        self.apply(Op::Sub, rhs)
    }
}

impl<N: Number, U: Unit + Copy> SubSpecImpl for Value<N, U> {
    open spec fn obeys_sub_spec() -> bool {
        false
    }

    open spec fn sub_req(self, rhs: Value<N, U>) -> bool {
        self.unit.compatible(rhs.unit) && defined::<N>(Op::Sub, self@, rhs@)
    }

    open spec fn sub_spec(self, rhs: Value<N, U>) -> Value<N, U> {
        arbitrary()
    }
}

impl<N: Number, U: Unit + Copy> core::ops::Sub<N> for Value<N, U> {
    type Output = Value<N, U>;

    /// The difference of a reading and a bare number.
    fn sub(self, rhs: N) -> (r: Value<N, U>)
        ensures
            r@ == Op::Sub.eval(self@, rhs.value()),
            r.unit == self.unit,
    {
        self.apply_scalar(Op::Sub, rhs)
    }
}

impl<N: Number, U: Unit + Copy> SubSpecImpl<N> for Value<N, U> {
    open spec fn obeys_sub_spec() -> bool {
        false
    }

    open spec fn sub_req(self, rhs: N) -> bool {
        defined::<N>(Op::Sub, self@, rhs.value())
    }

    open spec fn sub_spec(self, rhs: N) -> Value<N, U> {
        arbitrary()
    }
}

impl<N: Number, U: Unit + Copy> core::ops::Sub for Vec2<N, U> {
    type Output = Vec2<N, U>;

    /// Lane by lane, the difference of two vectors of compatible tags.
    fn sub(self, rhs: Vec2<N, U>) -> (r: Vec2<N, U>)
        ensures
            r@ == eval2(Op::Sub, self@, rhs@),
            r.unit == self.unit,
    {
        self.apply(Op::Sub, rhs)
    }
}

impl<N: Number, U: Unit + Copy> SubSpecImpl for Vec2<N, U> {
    open spec fn obeys_sub_spec() -> bool {
        false
    }

    open spec fn sub_req(self, rhs: Vec2<N, U>) -> bool {
        self.unit.compatible(rhs.unit) && defined2::<N>(Op::Sub, self@, rhs@)
    }

    open spec fn sub_spec(self, rhs: Vec2<N, U>) -> Vec2<N, U> {
        arbitrary()
    }
}

impl<N: Number, U: Unit + Copy> core::ops::Sub<N> for Vec2<N, U> {
    type Output = Vec2<N, U>;

    /// The difference of each lane and a bare number.
    fn sub(self, rhs: N) -> (r: Vec2<N, U>)
        ensures
            r@ == eval2(Op::Sub, self@, (rhs.value(), rhs.value())),
            r.unit == self.unit,
    {
        self.apply_scalar(Op::Sub, rhs)
    }
}

impl<N: Number, U: Unit + Copy> SubSpecImpl<N> for Vec2<N, U> {
    open spec fn obeys_sub_spec() -> bool {
        false
    }

    open spec fn sub_req(self, rhs: N) -> bool {
        defined2::<N>(Op::Sub, self@, (rhs.value(), rhs.value()))
    }

    open spec fn sub_spec(self, rhs: N) -> Vec2<N, U> {
        arbitrary()
    }
}

impl<N: Number, U: Unit + Copy> core::ops::Sub for Rect<N, U> {
    type Output = Rect<N, U>;

    /// The difference of the origins and that of the sizes of two rectangles
    /// of compatible tags.
    fn sub(self, rhs: Rect<N, U>) -> (r: Rect<N, U>)
        ensures
            r.origin@ == eval2(Op::Sub, self.origin@, rhs.origin@),
            r.size@ == eval2(Op::Sub, self.size@, rhs.size@),
            r.unit == self.unit,
    {
        self.apply(Op::Sub, rhs)
    }
}

impl<N: Number, U: Unit + Copy> SubSpecImpl for Rect<N, U> {
    open spec fn obeys_sub_spec() -> bool {
        false
    }

    open spec fn sub_req(self, rhs: Rect<N, U>) -> bool {
        &&& self.unit.compatible(rhs.unit)
        &&& defined2::<N>(Op::Sub, self.origin@, rhs.origin@)
        &&& defined2::<N>(Op::Sub, self.size@, rhs.size@)
    }

    open spec fn sub_spec(self, rhs: Rect<N, U>) -> Rect<N, U> {
        arbitrary()
    }
}

impl<N: Number, U: Unit + Copy> core::ops::Sub<Vec2<N, U>> for Rect<N, U> {
    type Output = Rect<N, U>;

    /// The difference of the origin and a vector, and that of the size and
    /// the same vector, of a compatible tag.
    fn sub(self, rhs: Vec2<N, U>) -> (r: Rect<N, U>)
        ensures
            r.origin@ == eval2(Op::Sub, self.origin@, rhs@),
            r.size@ == eval2(Op::Sub, self.size@, rhs@),
            r.unit == self.unit,
    {
        self.apply_vec(Op::Sub, rhs)
    }
}

impl<N: Number, U: Unit + Copy> SubSpecImpl<Vec2<N, U>> for Rect<N, U> {
    open spec fn obeys_sub_spec() -> bool {
        false
    }

    open spec fn sub_req(self, rhs: Vec2<N, U>) -> bool {
        &&& self.unit.compatible(rhs.unit)
        &&& defined2::<N>(Op::Sub, self.origin@, rhs@)
        &&& defined2::<N>(Op::Sub, self.size@, rhs@)
    }

    open spec fn sub_spec(self, rhs: Vec2<N, U>) -> Rect<N, U> {
        arbitrary()
    }
}

impl<N: Number, U: Unit + Copy> core::ops::Sub<N> for Rect<N, U> {
    type Output = Rect<N, U>;

    /// The difference of each of the four lanes and a bare number.
    fn sub(self, rhs: N) -> (r: Rect<N, U>)
        ensures
            r.origin@ == eval2(Op::Sub, self.origin@, (rhs.value(), rhs.value())),
            r.size@ == eval2(Op::Sub, self.size@, (rhs.value(), rhs.value())),
            r.unit == self.unit,
    {
        self.apply_scalar(Op::Sub, rhs)
    }
}

impl<N: Number, U: Unit + Copy> SubSpecImpl<N> for Rect<N, U> {
    open spec fn obeys_sub_spec() -> bool {
        false
    }

    open spec fn sub_req(self, rhs: N) -> bool {
        &&& defined2::<N>(Op::Sub, self.origin@, (rhs.value(), rhs.value()))
        &&& defined2::<N>(Op::Sub, self.size@, (rhs.value(), rhs.value()))
    }

    open spec fn sub_spec(self, rhs: N) -> Rect<N, U> {
        arbitrary()
    }
}

impl<N: Number, U: Unit + Copy> core::ops::Mul for Value<N, U> {
    type Output = Value<N, U>;

    /// The product of two readings of compatible tags.
    fn mul(self, rhs: Value<N, U>) -> (r: Value<N, U>)
        ensures
            r@ == Op::Mul.eval(self@, rhs@),
            r.unit == self.unit,
    {
        self.apply(Op::Mul, rhs)
    }
}

impl<N: Number, U: Unit + Copy> MulSpecImpl for Value<N, U> {
    open spec fn obeys_mul_spec() -> bool {
        false
    }

    open spec fn mul_req(self, rhs: Value<N, U>) -> bool {
        self.unit.compatible(rhs.unit) && defined::<N>(Op::Mul, self@, rhs@)
    }

    open spec fn mul_spec(self, rhs: Value<N, U>) -> Value<N, U> {
        arbitrary()
    }
}

impl<N: Number, U: Unit + Copy> core::ops::Mul<N> for Value<N, U> {
    type Output = Value<N, U>;

    /// The product of a reading and a bare number.
    fn mul(self, rhs: N) -> (r: Value<N, U>)
        ensures
            r@ == Op::Mul.eval(self@, rhs.value()),
            r.unit == self.unit,
    {
        self.apply_scalar(Op::Mul, rhs)
    }
}

impl<N: Number, U: Unit + Copy> MulSpecImpl<N> for Value<N, U> {
    open spec fn obeys_mul_spec() -> bool {
        false
    }

    open spec fn mul_req(self, rhs: N) -> bool {
        defined::<N>(Op::Mul, self@, rhs.value())
    }

    open spec fn mul_spec(self, rhs: N) -> Value<N, U> {
        arbitrary()
    }
}

impl<N: Number, U: Unit + Copy> core::ops::Mul for Vec2<N, U> {
    type Output = Vec2<N, U>;

    /// Lane by lane, the product of two vectors of compatible tags.
    fn mul(self, rhs: Vec2<N, U>) -> (r: Vec2<N, U>)
        ensures
            r@ == eval2(Op::Mul, self@, rhs@),
            r.unit == self.unit,
    {
        self.apply(Op::Mul, rhs)
    }
}

impl<N: Number, U: Unit + Copy> MulSpecImpl for Vec2<N, U> {
    open spec fn obeys_mul_spec() -> bool {
        false
    }

    open spec fn mul_req(self, rhs: Vec2<N, U>) -> bool {
        self.unit.compatible(rhs.unit) && defined2::<N>(Op::Mul, self@, rhs@)
    }

    open spec fn mul_spec(self, rhs: Vec2<N, U>) -> Vec2<N, U> {
        arbitrary()
    }
}

impl<N: Number, U: Unit + Copy> core::ops::Mul<N> for Vec2<N, U> {
    type Output = Vec2<N, U>;

    /// The product of each lane and a bare number.
    fn mul(self, rhs: N) -> (r: Vec2<N, U>)
        ensures
            r@ == eval2(Op::Mul, self@, (rhs.value(), rhs.value())),
            r.unit == self.unit,
    {
        self.apply_scalar(Op::Mul, rhs)
    }
}

impl<N: Number, U: Unit + Copy> MulSpecImpl<N> for Vec2<N, U> {
    open spec fn obeys_mul_spec() -> bool {
        false
    }

    open spec fn mul_req(self, rhs: N) -> bool {
        defined2::<N>(Op::Mul, self@, (rhs.value(), rhs.value()))
    }

    open spec fn mul_spec(self, rhs: N) -> Vec2<N, U> {
        arbitrary()
    }
}

impl<N: Number, U: Unit + Copy> core::ops::Mul for Rect<N, U> {
    type Output = Rect<N, U>;

    /// The product of the origins and that of the sizes of two rectangles
    /// of compatible tags.
    fn mul(self, rhs: Rect<N, U>) -> (r: Rect<N, U>)
        ensures
            r.origin@ == eval2(Op::Mul, self.origin@, rhs.origin@),
            r.size@ == eval2(Op::Mul, self.size@, rhs.size@),
            r.unit == self.unit,
    {
        self.apply(Op::Mul, rhs)
    }
}

impl<N: Number, U: Unit + Copy> MulSpecImpl for Rect<N, U> {
    open spec fn obeys_mul_spec() -> bool {
        false
    }

    open spec fn mul_req(self, rhs: Rect<N, U>) -> bool {
        &&& self.unit.compatible(rhs.unit)
        &&& defined2::<N>(Op::Mul, self.origin@, rhs.origin@)
        &&& defined2::<N>(Op::Mul, self.size@, rhs.size@)
    }

    open spec fn mul_spec(self, rhs: Rect<N, U>) -> Rect<N, U> {
        arbitrary()
    }
}

impl<N: Number, U: Unit + Copy> core::ops::Mul<Vec2<N, U>> for Rect<N, U> {
    type Output = Rect<N, U>;

    /// The product of the origin and a vector, and that of the size and
    /// the same vector, of a compatible tag.
    fn mul(self, rhs: Vec2<N, U>) -> (r: Rect<N, U>)
        ensures
            r.origin@ == eval2(Op::Mul, self.origin@, rhs@),
            r.size@ == eval2(Op::Mul, self.size@, rhs@),
            r.unit == self.unit,
    {
        self.apply_vec(Op::Mul, rhs)
    }
}

impl<N: Number, U: Unit + Copy> MulSpecImpl<Vec2<N, U>> for Rect<N, U> {
    open spec fn obeys_mul_spec() -> bool {
        false
    }

    open spec fn mul_req(self, rhs: Vec2<N, U>) -> bool {
        &&& self.unit.compatible(rhs.unit)
        &&& defined2::<N>(Op::Mul, self.origin@, rhs@)
        &&& defined2::<N>(Op::Mul, self.size@, rhs@)
    }

    open spec fn mul_spec(self, rhs: Vec2<N, U>) -> Rect<N, U> {
        arbitrary()
    }
}

impl<N: Number, U: Unit + Copy> core::ops::Mul<N> for Rect<N, U> {
    type Output = Rect<N, U>;

    /// The product of each of the four lanes and a bare number.
    fn mul(self, rhs: N) -> (r: Rect<N, U>)
        ensures
            r.origin@ == eval2(Op::Mul, self.origin@, (rhs.value(), rhs.value())),
            r.size@ == eval2(Op::Mul, self.size@, (rhs.value(), rhs.value())),
            r.unit == self.unit,
    {
        self.apply_scalar(Op::Mul, rhs)
    }
}

impl<N: Number, U: Unit + Copy> MulSpecImpl<N> for Rect<N, U> {
    open spec fn obeys_mul_spec() -> bool {
        false
    }

    open spec fn mul_req(self, rhs: N) -> bool {
        &&& defined2::<N>(Op::Mul, self.origin@, (rhs.value(), rhs.value()))
        &&& defined2::<N>(Op::Mul, self.size@, (rhs.value(), rhs.value()))
    }

    open spec fn mul_spec(self, rhs: N) -> Rect<N, U> {
        arbitrary()
    }
}

impl<N: Number, U: Unit + Copy> core::ops::Div for Value<N, U> {
    type Output = Value<N, U>;

    /// The quotient of two readings of compatible tags. A quotient rounds toward
    /// zero.
    fn div(self, rhs: Value<N, U>) -> (r: Value<N, U>)
        ensures
            r@ == Op::Div.eval(self@, rhs@),
            r.unit == self.unit,
    {
        self.apply(Op::Div, rhs)
    }
}

impl<N: Number, U: Unit + Copy> DivSpecImpl for Value<N, U> {
    open spec fn obeys_div_spec() -> bool {
        false
    }

    open spec fn div_req(self, rhs: Value<N, U>) -> bool {
        self.unit.compatible(rhs.unit) && defined::<N>(Op::Div, self@, rhs@)
    }

    open spec fn div_spec(self, rhs: Value<N, U>) -> Value<N, U> {
        arbitrary()
    }
}

impl<N: Number, U: Unit + Copy> core::ops::Div<N> for Value<N, U> {
    type Output = Value<N, U>;

    /// The quotient of a reading and a bare number. A quotient rounds toward
    /// zero.
    fn div(self, rhs: N) -> (r: Value<N, U>)
        ensures
            r@ == Op::Div.eval(self@, rhs.value()),
            r.unit == self.unit,
    {
        self.apply_scalar(Op::Div, rhs)
    }
}

impl<N: Number, U: Unit + Copy> DivSpecImpl<N> for Value<N, U> {
    open spec fn obeys_div_spec() -> bool {
        false
    }

    open spec fn div_req(self, rhs: N) -> bool {
        defined::<N>(Op::Div, self@, rhs.value())
    }

    open spec fn div_spec(self, rhs: N) -> Value<N, U> {
        arbitrary()
    }
}

impl<N: Number, U: Unit + Copy> core::ops::Div for Vec2<N, U> {
    type Output = Vec2<N, U>;

    /// Lane by lane, the quotient of two vectors of compatible tags. A quotient rounds toward
    /// zero.
    fn div(self, rhs: Vec2<N, U>) -> (r: Vec2<N, U>)
        ensures
            r@ == eval2(Op::Div, self@, rhs@),
            r.unit == self.unit,
    {
        self.apply(Op::Div, rhs)
    }
}

impl<N: Number, U: Unit + Copy> DivSpecImpl for Vec2<N, U> {
    open spec fn obeys_div_spec() -> bool {
        false
    }

    open spec fn div_req(self, rhs: Vec2<N, U>) -> bool {
        self.unit.compatible(rhs.unit) && defined2::<N>(Op::Div, self@, rhs@)
    }

    open spec fn div_spec(self, rhs: Vec2<N, U>) -> Vec2<N, U> {
        arbitrary()
    }
}

impl<N: Number, U: Unit + Copy> core::ops::Div<N> for Vec2<N, U> {
    type Output = Vec2<N, U>;

    /// The quotient of each lane and a bare number. A quotient rounds toward
    /// zero.
    fn div(self, rhs: N) -> (r: Vec2<N, U>)
        ensures
            r@ == eval2(Op::Div, self@, (rhs.value(), rhs.value())),
            r.unit == self.unit,
    {
        self.apply_scalar(Op::Div, rhs)
    }
}

impl<N: Number, U: Unit + Copy> DivSpecImpl<N> for Vec2<N, U> {
    open spec fn obeys_div_spec() -> bool {
        false
    }

    open spec fn div_req(self, rhs: N) -> bool {
        defined2::<N>(Op::Div, self@, (rhs.value(), rhs.value()))
    }

    open spec fn div_spec(self, rhs: N) -> Vec2<N, U> {
        arbitrary()
    }
}

impl<N: Number, U: Unit + Copy> core::ops::Div for Rect<N, U> {
    type Output = Rect<N, U>;

    /// The quotient of the origins and that of the sizes of two rectangles
    /// of compatible tags. A quotient rounds toward
    /// zero.
    fn div(self, rhs: Rect<N, U>) -> (r: Rect<N, U>)
        ensures
            r.origin@ == eval2(Op::Div, self.origin@, rhs.origin@),
            r.size@ == eval2(Op::Div, self.size@, rhs.size@),
            r.unit == self.unit,
    {
        self.apply(Op::Div, rhs)
    }
}

impl<N: Number, U: Unit + Copy> DivSpecImpl for Rect<N, U> {
    open spec fn obeys_div_spec() -> bool {
        false
    }

    open spec fn div_req(self, rhs: Rect<N, U>) -> bool {
        &&& self.unit.compatible(rhs.unit)
        &&& defined2::<N>(Op::Div, self.origin@, rhs.origin@)
        &&& defined2::<N>(Op::Div, self.size@, rhs.size@)
    }

    open spec fn div_spec(self, rhs: Rect<N, U>) -> Rect<N, U> {
        arbitrary()
    }
}

impl<N: Number, U: Unit + Copy> core::ops::Div<Vec2<N, U>> for Rect<N, U> {
    type Output = Rect<N, U>;

    /// The quotient of the origin and a vector, and that of the size and
    /// the same vector, of a compatible tag. A quotient rounds toward
    /// zero.
    fn div(self, rhs: Vec2<N, U>) -> (r: Rect<N, U>)
        ensures
            r.origin@ == eval2(Op::Div, self.origin@, rhs@),
            r.size@ == eval2(Op::Div, self.size@, rhs@),
            r.unit == self.unit,
    {
        self.apply_vec(Op::Div, rhs)
    }
}

impl<N: Number, U: Unit + Copy> DivSpecImpl<Vec2<N, U>> for Rect<N, U> {
    open spec fn obeys_div_spec() -> bool {
        false
    }

    open spec fn div_req(self, rhs: Vec2<N, U>) -> bool {
        &&& self.unit.compatible(rhs.unit)
        &&& defined2::<N>(Op::Div, self.origin@, rhs@)
        &&& defined2::<N>(Op::Div, self.size@, rhs@)
    }

    open spec fn div_spec(self, rhs: Vec2<N, U>) -> Rect<N, U> {
        arbitrary()
    }
}

impl<N: Number, U: Unit + Copy> core::ops::Div<N> for Rect<N, U> {
    type Output = Rect<N, U>;

    /// The quotient of each of the four lanes and a bare number. A quotient rounds toward
    /// zero.
    fn div(self, rhs: N) -> (r: Rect<N, U>)
        ensures
            r.origin@ == eval2(Op::Div, self.origin@, (rhs.value(), rhs.value())),
            r.size@ == eval2(Op::Div, self.size@, (rhs.value(), rhs.value())),
            r.unit == self.unit,
    {
        self.apply_scalar(Op::Div, rhs)
    }
}

impl<N: Number, U: Unit + Copy> DivSpecImpl<N> for Rect<N, U> {
    open spec fn obeys_div_spec() -> bool {
        false
    }

    open spec fn div_req(self, rhs: N) -> bool {
        &&& defined2::<N>(Op::Div, self.origin@, (rhs.value(), rhs.value()))
        &&& defined2::<N>(Op::Div, self.size@, (rhs.value(), rhs.value()))
    }

    open spec fn div_spec(self, rhs: N) -> Rect<N, U> {
        arbitrary()
    }
}

impl<N: Number, U: Unit + Copy> core::ops::Rem for Value<N, U> {
    type Output = Value<N, U>;

    /// The remainder of two readings of compatible tags. A remainder has the sign
    /// of its dividend.
    fn rem(self, rhs: Value<N, U>) -> (r: Value<N, U>)
        ensures
            r@ == Op::Rem.eval(self@, rhs@),
            r.unit == self.unit,
    {
        self.apply(Op::Rem, rhs)
    }
}

impl<N: Number, U: Unit + Copy> RemSpecImpl for Value<N, U> {
    open spec fn obeys_rem_spec() -> bool {
        false
    }

    open spec fn rem_req(self, rhs: Value<N, U>) -> bool {
        self.unit.compatible(rhs.unit) && defined::<N>(Op::Rem, self@, rhs@)
    }

    open spec fn rem_spec(self, rhs: Value<N, U>) -> Value<N, U> {
        arbitrary()
    }
}

impl<N: Number, U: Unit + Copy> core::ops::Rem<N> for Value<N, U> {
    type Output = Value<N, U>;

    /// The remainder of a reading and a bare number. A remainder has the sign
    /// of its dividend.
    fn rem(self, rhs: N) -> (r: Value<N, U>)
        ensures
            r@ == Op::Rem.eval(self@, rhs.value()),
            r.unit == self.unit,
    {
        self.apply_scalar(Op::Rem, rhs)
    }
}

impl<N: Number, U: Unit + Copy> RemSpecImpl<N> for Value<N, U> {
    open spec fn obeys_rem_spec() -> bool {
        false
    }

    open spec fn rem_req(self, rhs: N) -> bool {
        defined::<N>(Op::Rem, self@, rhs.value())
    }

    open spec fn rem_spec(self, rhs: N) -> Value<N, U> {
        arbitrary()
    }
}

impl<N: Number, U: Unit + Copy> core::ops::Rem for Vec2<N, U> {
    type Output = Vec2<N, U>;

    /// Lane by lane, the remainder of two vectors of compatible tags. A remainder has the sign
    /// of its dividend.
    fn rem(self, rhs: Vec2<N, U>) -> (r: Vec2<N, U>)
        ensures
            r@ == eval2(Op::Rem, self@, rhs@),
            r.unit == self.unit,
    {
        self.apply(Op::Rem, rhs)
    }
}

impl<N: Number, U: Unit + Copy> RemSpecImpl for Vec2<N, U> {
    open spec fn obeys_rem_spec() -> bool {
        false
    }

    open spec fn rem_req(self, rhs: Vec2<N, U>) -> bool {
        self.unit.compatible(rhs.unit) && defined2::<N>(Op::Rem, self@, rhs@)
    }

    open spec fn rem_spec(self, rhs: Vec2<N, U>) -> Vec2<N, U> {
        arbitrary()
    }
}

impl<N: Number, U: Unit + Copy> core::ops::Rem<N> for Vec2<N, U> {
    type Output = Vec2<N, U>;

    /// The remainder of each lane and a bare number. A remainder has the sign
    /// of its dividend.
    fn rem(self, rhs: N) -> (r: Vec2<N, U>)
        ensures
            r@ == eval2(Op::Rem, self@, (rhs.value(), rhs.value())),
            r.unit == self.unit,
    {
        self.apply_scalar(Op::Rem, rhs)
    }
}

impl<N: Number, U: Unit + Copy> RemSpecImpl<N> for Vec2<N, U> {
    open spec fn obeys_rem_spec() -> bool {
        false
    }

    open spec fn rem_req(self, rhs: N) -> bool {
        defined2::<N>(Op::Rem, self@, (rhs.value(), rhs.value()))
    }

    open spec fn rem_spec(self, rhs: N) -> Vec2<N, U> {
        arbitrary()
    }
}

impl<N: Number, U: Unit + Copy> core::ops::Rem for Rect<N, U> {
    type Output = Rect<N, U>;

    /// The remainder of the origins and that of the sizes of two rectangles
    /// of compatible tags. A remainder has the sign
    /// of its dividend.
    fn rem(self, rhs: Rect<N, U>) -> (r: Rect<N, U>)
        ensures
            r.origin@ == eval2(Op::Rem, self.origin@, rhs.origin@),
            r.size@ == eval2(Op::Rem, self.size@, rhs.size@),
            r.unit == self.unit,
    {
        self.apply(Op::Rem, rhs)
    }
}

impl<N: Number, U: Unit + Copy> RemSpecImpl for Rect<N, U> {
    open spec fn obeys_rem_spec() -> bool {
        false
    }

    open spec fn rem_req(self, rhs: Rect<N, U>) -> bool {
        &&& self.unit.compatible(rhs.unit)
        &&& defined2::<N>(Op::Rem, self.origin@, rhs.origin@)
        &&& defined2::<N>(Op::Rem, self.size@, rhs.size@)
    }

    open spec fn rem_spec(self, rhs: Rect<N, U>) -> Rect<N, U> {
        arbitrary()
    }
}

impl<N: Number, U: Unit + Copy> core::ops::Rem<Vec2<N, U>> for Rect<N, U> {
    type Output = Rect<N, U>;

    /// The remainder of the origin and a vector, and that of the size and
    /// the same vector, of a compatible tag. A remainder has the sign
    /// of its dividend.
    fn rem(self, rhs: Vec2<N, U>) -> (r: Rect<N, U>)
        ensures
            r.origin@ == eval2(Op::Rem, self.origin@, rhs@),
            r.size@ == eval2(Op::Rem, self.size@, rhs@),
            r.unit == self.unit,
    {
        self.apply_vec(Op::Rem, rhs)
    }
}

impl<N: Number, U: Unit + Copy> RemSpecImpl<Vec2<N, U>> for Rect<N, U> {
    open spec fn obeys_rem_spec() -> bool {
        false
    }

    open spec fn rem_req(self, rhs: Vec2<N, U>) -> bool {
        &&& self.unit.compatible(rhs.unit)
        &&& defined2::<N>(Op::Rem, self.origin@, rhs@)
        &&& defined2::<N>(Op::Rem, self.size@, rhs@)
    }

    open spec fn rem_spec(self, rhs: Vec2<N, U>) -> Rect<N, U> {
        arbitrary()
    }
}

impl<N: Number, U: Unit + Copy> core::ops::Rem<N> for Rect<N, U> {
    type Output = Rect<N, U>;

    /// The remainder of each of the four lanes and a bare number. A remainder has the sign
    /// of its dividend.
    fn rem(self, rhs: N) -> (r: Rect<N, U>)
        ensures
            r.origin@ == eval2(Op::Rem, self.origin@, (rhs.value(), rhs.value())),
            r.size@ == eval2(Op::Rem, self.size@, (rhs.value(), rhs.value())),
            r.unit == self.unit,
    {
        self.apply_scalar(Op::Rem, rhs)
    }
}

impl<N: Number, U: Unit + Copy> RemSpecImpl<N> for Rect<N, U> {
    open spec fn obeys_rem_spec() -> bool {
        false
    }

    open spec fn rem_req(self, rhs: N) -> bool {
        &&& defined2::<N>(Op::Rem, self.origin@, (rhs.value(), rhs.value()))
        &&& defined2::<N>(Op::Rem, self.size@, (rhs.value(), rhs.value()))
    }

    open spec fn rem_spec(self, rhs: N) -> Rect<N, U> {
        arbitrary()
    }
}

impl<N: Number, U: Unit + Copy> core::ops::Neg for Vec2<N, U> {
    type Output = Vec2<N, U>;

    /// The vector with both lanes negated.
    fn neg(self) -> (r: Vec2<N, U>)
        ensures
            r@ == (-self@.0, -self@.1),
            r.unit == self.unit,
    {
        self.negated()
    }
}

impl<N: Number, U: Unit + Copy> NegSpecImpl for Vec2<N, U> {
    open spec fn obeys_neg_spec() -> bool {
        false
    }

    open spec fn neg_req(self) -> bool {
        in_range2::<N>((-self@.0, -self@.1))
    }

    open spec fn neg_spec(self) -> Vec2<N, U> {
        arbitrary()
    }
}

} // verus!
