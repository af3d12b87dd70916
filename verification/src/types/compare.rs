//! Equality and order of the carrier types. Two carriers are equal where
//! their lanes are; the tag has no part in it.
use vstd::prelude::*;
use vstd::std_specs::cmp::{PartialEqSpecImpl, PartialOrdSpecImpl};
use core::cmp::Ordering;
use crate::number::{same, Number};
use crate::types::rect::Rect;
use crate::types::value::Value;
use crate::types::vec2::Vec2;
use crate::unit::Unit;

verus! {

/// How `a` stands to `b`: -1 where it is less, 1 where it is greater, 0
/// where the two are equal.
pub open spec fn code(a: int, b: int) -> int {
    if a < b {
        -1
    } else if a > b {
        1
    } else {
        0
    }
}

/// The order that a sum of codes stands for: its sign.
pub open spec fn order_of(sum: int) -> Ordering {
    if sum > 0 {
        Ordering::Greater
    } else if sum < 0 {
        Ordering::Less
    } else {
        Ordering::Equal
    }
}

/// Computes [`code`] of the readings of `a` and `b`.
fn code_of<N: Number>(a: N, b: N) -> (c: i8)
    ensures
        c == code(a.value(), b.value()),
{
    if a.less_than(b) {
        -1
    } else if b.less_than(a) {
        1
    } else {
        0
    }
}

/// Computes [`order_of`] of the sum of two codes.
fn order_from(x: i8, y: i8) -> (o: Ordering)
    requires
        -1 <= x <= 1,
        -1 <= y <= 1,
    ensures
        o == order_of(x + y),
{
    let sum: i8 = x + y;
    if sum > 0 {
        Ordering::Greater
    } else if sum < 0 {
        Ordering::Less
    } else {
        Ordering::Equal
    }
}

impl<N: Number, U: Unit + Copy> PartialEq for Value<N, U> {
    /// Whether the two readings are the same number.
    fn eq(&self, other: &Self) -> (r: bool) {
        same(self.value, other.value)
    }
}

impl<N: Number, U: Unit + Copy> PartialEqSpecImpl for Value<N, U> {
    open spec fn obeys_eq_spec() -> bool {
        true
    }

    open spec fn eq_spec(&self, other: &Self) -> bool {
        self@ == other@
    }
}

impl<N: Number, U: Unit + Copy> Eq for Value<N, U> {
}

impl<N: Number, U: Unit + Copy> PartialOrd for Value<N, U> {
    /// The order of the two readings.
    fn partial_cmp(&self, other: &Self) -> (r: Option<Ordering>) {
        Some(order_from(code_of(self.value, other.value), 0))
    }
}

impl<N: Number, U: Unit + Copy> PartialOrdSpecImpl for Value<N, U> {
    open spec fn obeys_partial_cmp_spec() -> bool {
        true
    }

    open spec fn partial_cmp_spec(&self, other: &Self) -> Option<Ordering> {
        Some(order_of(code(self@, other@) + 0))
    }
}

impl<N: Number, U: Unit + Copy> Value<N, U> {
    /// The order of the two readings.
    pub fn cmp(&self, other: &Value<N, U>) -> (o: Ordering)
        ensures
            o == order_of(code(self@, other@)),
    {
        order_from(code_of(self.value, other.value), 0)
    }
}

impl<N: Number, U: Unit + Copy> PartialEq for Vec2<N, U> {
    /// Whether the two vectors agree on both lanes.
    fn eq(&self, other: &Self) -> (r: bool) {
        same(self.x, other.x) && same(self.y, other.y)
    }
}

impl<N: Number, U: Unit + Copy> PartialEqSpecImpl for Vec2<N, U> {
    open spec fn obeys_eq_spec() -> bool {
        true
    }

    open spec fn eq_spec(&self, other: &Self) -> bool {
        self@ == other@
    }
}

impl<N: Number, U: Unit + Copy> Eq for Vec2<N, U> {
}

impl<N: Number, U: Unit + Copy> PartialOrd for Vec2<N, U> {
    /// The sign of the sum of the two lanes' codes. This is not the
    /// lexicographic order, and it is not transitive: two vectors whose
    /// lanes differ in opposite directions, such as (2, 0) and (1, 1),
    /// come out as `Equal` though they are not equal.
    fn partial_cmp(&self, other: &Self) -> (r: Option<Ordering>) {
        let x: i8 = code_of(self.x, other.x);
        let y: i8 = code_of(self.y, other.y);
        Some(order_from(x, y))
    }
}

impl<N: Number, U: Unit + Copy> PartialOrdSpecImpl for Vec2<N, U> {
    open spec fn obeys_partial_cmp_spec() -> bool {
        true
    }

    open spec fn partial_cmp_spec(&self, other: &Self) -> Option<Ordering> {
        Some(summed_order(self@, other@))
    }
}

/// The order that the lanes of two vectors add up to: the sign of the sum
/// of the two lanes' codes.
pub open spec fn summed_order(a: (int, int), b: (int, int)) -> Ordering {
    order_of(code(a.0, b.0) + code(a.1, b.1))
}

/// The number that goes with [`summed_order`]: -1 for `Less`, 0 for `Equal`
/// and 1 for `Greater`.
pub open spec fn summed_code(a: (int, int), b: (int, int)) -> int {
    code(code(a.0, b.0) + code(a.1, b.1), 0)
}

/// Computes [`summed_code`] of the readings of two vectors.
fn summed_code_of<N: Number>(a: Vec2<N>, b: Vec2<N>) -> (c: i8)
    ensures
        c == summed_code(a@, b@),
{
    let sum: i8 = code_of(a.x, b.x) + code_of(a.y, b.y);
    if sum < 0 {
        -1
    } else if sum > 0 {
        1
    } else {
        0
    }
}

/// Computes [`code`] of two codes.
fn code_of_codes(a: i8, b: i8) -> (c: i8)
    ensures
        c == code(a as int, b as int),
{
    if a < b {
        -1
    } else if a > b {
        1
    } else {
        0
    }
}

impl<N: Number, U: Unit + Copy> Vec2<N, U> {
    /// The order of `partial_cmp`: the sign of the sum of the two lanes'
    /// codes.
    pub fn cmp(&self, other: &Vec2<N, U>) -> (o: Ordering)
        ensures
            o == summed_order(self@, other@),
    {
        let x: i8 = code_of(self.x, other.x);
        let y: i8 = code_of(self.y, other.y);
        order_from(x, y)
    }
}

/// The order of two rectangles: how the order of the origins stands to the
/// order of the sizes, where `Less` comes before `Equal` and `Equal` before
/// `Greater`.
pub open spec fn rect_order(a: ((int, int), (int, int)), b: ((int, int), (int, int))) -> Ordering {
    order_of(code(summed_code(a.0, b.0), summed_code(a.1, b.1)))
}

impl<N: Number, U: Unit + Copy> Rect<N, U> {
    /// The order of `partial_cmp`: the order of the two origins compared
    /// with the order of the two sizes.
    pub fn cmp(&self, other: &Rect<N, U>) -> (o: Ordering)
        ensures
            o == rect_order(self@, other@),
    {
        let origin: i8 = summed_code_of(self.origin, other.origin);
        let size: i8 = summed_code_of(self.size, other.size);
        order_from(code_of_codes(origin, size), 0)
    }
}

impl<N: Number, U: Unit + Copy> PartialOrd for Rect<N, U> {
    /// The order of the two origins compared with the order of the two
    /// sizes, each taken as vectors: `Less` where the origins stand lower
    /// to each other than the sizes do.
    fn partial_cmp(&self, other: &Self) -> (r: Option<Ordering>) {
        Some(self.cmp(other))
    }
}

impl<N: Number, U: Unit + Copy> PartialOrdSpecImpl for Rect<N, U> {
    open spec fn obeys_partial_cmp_spec() -> bool {
        true
    }

    open spec fn partial_cmp_spec(&self, other: &Self) -> Option<Ordering> {
        Some(rect_order(self@, other@))
    }
}

/// The lexicographic order of two pairs: by the first lane, and by the
/// second where the first lanes are equal.
pub open spec fn lexicographic_order(a: (int, int), b: (int, int)) -> Ordering {
    if a.0 != b.0 {
        order_of(code(a.0, b.0))
    } else {
        order_of(code(a.1, b.1))
    }
}

impl<N: Number, U: Unit + Copy> Vec2<N, U> {
    /// The lexicographic order of the two vectors: by `x`, then by `y`.
    /// Unlike the order of `partial_cmp`, this one is total on the readings,
    /// and `Equal` only where the two vectors are.
    pub fn lexicographic(&self, other: &Vec2<N, U>) -> (o: Ordering)
        ensures
            o == lexicographic_order(self@, other@),
    {
        let x: i8 = code_of(self.x, other.x);
        if x != 0 {
            order_from(x, 0)
        } else {
            order_from(code_of(self.y, other.y), 0)
        }
    }
}

impl<N: Number, U: Unit + Copy> PartialEq for Rect<N, U> {
    /// Whether the two rectangles agree on origin and size.
    fn eq(&self, other: &Self) -> (r: bool) {
        same(self.origin.x, other.origin.x) && same(self.origin.y, other.origin.y) && same(
            self.size.x,
            other.size.x,
        ) && same(self.size.y, other.size.y)
    }
}

impl<N: Number, U: Unit + Copy> PartialEqSpecImpl for Rect<N, U> {
    open spec fn obeys_eq_spec() -> bool {
        true
    }

    open spec fn eq_spec(&self, other: &Self) -> bool {
        self@ == other@
    }
}

impl<N: Number, U: Unit + Copy> Eq for Rect<N, U> {
}

} // verus!
