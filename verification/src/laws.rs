//! Laws of the carriers over exact lane types.
use vstd::prelude::*;
use vstd::arithmetic::div_mod::{lemma_div_by_multiple, lemma_fundamental_div_mod};
use crate::number::{
    in_range, lemma_same_reading, narrow, pow10, scale_int, trunc_div, Exact, Number, Op,
};
use crate::scale::{lemma_pow10_grows, lemma_pow10_step};
use crate::types::rect::Rect;
use crate::types::value::Value;
use crate::types::vec2::{defined2, eval2, Vec2};
use crate::unit::{BasePrefix, Unit};

verus! {

/// Adding a vector of zeros to `v` is always possible and gives `v`:
/// whatever `v.apply(Op::Add, zero)` returns is `v`.
pub proof fn lemma_add_zero<N: Number + Exact, U: Unit + Copy>(
    v: Vec2<N, U>,
    zero: Vec2<N, U>,
    sum: Vec2<N, U>,
)
    requires
        zero@ == (0int, 0int),
        sum@ == eval2(Op::Add, v@, zero@),
        sum.unit == v.unit,
    ensures
        defined2::<N>(Op::Add, v@, zero@),
        sum == v,
{
    v.x.lemma_value();
    v.y.lemma_value();
    lemma_same_reading(sum.x, v.x);
    lemma_same_reading(sum.y, v.y);
}

/// Multiplying `v` by one is always possible and gives `v`: whatever
/// `v.apply_scalar(Op::Mul, one)` returns is `v`.
pub proof fn lemma_mul_one<N: Number + Exact, U: Unit + Copy>(
    v: Vec2<N, U>,
    one: N,
    product: Vec2<N, U>,
)
    requires
        one.value() == 1,
        product@ == eval2(Op::Mul, v@, (one.value(), one.value())),
        product.unit == v.unit,
    ensures
        defined2::<N>(Op::Mul, v@, (one.value(), one.value())),
        product == v,
{
    v.x.lemma_value();
    v.y.lemma_value();
    lemma_same_reading(product.x, v.x);
    lemma_same_reading(product.y, v.y);
}

/// Subtracting `b` from the sum of `a` and `b` is always possible and gives
/// `a` back: where `sum` is what `a.apply(Op::Add, b)` returns, whatever
/// `sum.apply(Op::Sub, b)` returns is `a`.
pub proof fn lemma_add_then_sub<N: Number + Exact, U: Unit + Copy>(
    a: Vec2<N, U>,
    b: Vec2<N, U>,
    sum: Vec2<N, U>,
    back: Vec2<N, U>,
)
    requires
        a.unit.compatible(b.unit),
        defined2::<N>(Op::Add, a@, b@),
        sum@ == eval2(Op::Add, a@, b@),
        sum.unit == a.unit,
        back@ == eval2(Op::Sub, sum@, b@),
        back.unit == sum.unit,
    ensures
        sum.unit.compatible(b.unit),
        defined2::<N>(Op::Sub, sum@, b@),
        back == a,
{
    a.x.lemma_value();
    a.y.lemma_value();
    lemma_same_reading(back.x, a.x);
    lemma_same_reading(back.y, a.y);
}

/// The ends of an interpolation: at 0 it gives the first reading, at 1 the
/// second. Where `r` is what `a.lerp(b, t)` returns, `r` is `a` for a `t`
/// that reads 0 and `b` for a `t` that reads 1.
pub proof fn lemma_lerp_ends<N: Number + Exact, U: Unit + Copy>(
    a: Vec2<N, U>,
    b: Vec2<N, U>,
    t: N,
    r: Vec2<N, U>,
)
    requires
        r@.0 == a@.0 + (b@.0 - a@.0) * t.value(),
        r@.1 == a@.1 + (b@.1 - a@.1) * t.value(),
        r.unit == a.unit,
    ensures
        t.value() == 0 ==> r == a,
        t.value() == 1 ==> r@ == b@,
{
    if t.value() == 0 {
        lemma_same_reading(r.x, a.x);
        lemma_same_reading(r.y, a.y);
    }
}

/// The quotient and the remainder of a division make up the dividend: for
/// a divisor other than zero, `(a / b) * b + a % b` is `a`.
pub proof fn lemma_div_rem(a: int, b: int)
    requires
        b != 0,
    ensures
        Op::Div.eval(a, b) * b + Op::Rem.eval(a, b) == a,
{
    lemma_fundamental_div_mod(a, b);
    lemma_fundamental_div_mod(-a, b);
    assert(b * (-((-a) / b)) == -(b * ((-a) / b))) by (nonlinear_arith);
    assert(Op::Div.eval(a, b) * b == b * Op::Div.eval(a, b)) by (nonlinear_arith);
}

/// Scaling up by a power of ten and down again by the same power gives the
/// integer back.
pub proof fn lemma_scale_up_down(v: int, exp: int)
    requires
        exp >= 0,
    ensures
        scale_int(scale_int(v, exp), -exp) == v,
{
    let p = pow10(exp as nat);
    lemma_pow10_grows(0, exp as nat);
    if exp > 0 {
        if v >= 0 {
            assert(v * p >= 0) by (nonlinear_arith)
                requires
                    v >= 0,
                    p >= 1,
            ;
            lemma_div_by_multiple(v, p);
        } else {
            assert(v * p < 0) by (nonlinear_arith)
                requires
                    v < 0,
                    p >= 1,
            ;
            assert(-(v * p) == (-v) * p) by (nonlinear_arith);
            lemma_div_by_multiple(-v, p);
        }
    } else {
        lemma_pow10_step(0);
        assert(v * p == v) by (nonlinear_arith)
            requires
                p == 1,
        ;
    }
}

/// Scaling down by a power of ten that divides the integer, and up again by
/// the same power, gives the integer back.
pub proof fn lemma_scale_down_up(v: int, exp: int)
    requires
        exp < 0,
        v % pow10((-exp) as nat) == 0,
    ensures
        scale_int(scale_int(v, exp), -exp) == v,
{
    let p = pow10((-exp) as nat);
    lemma_pow10_grows(0, (-exp) as nat);
    lemma_fundamental_div_mod(v, p);
    if v >= 0 {
        assert((v / p) * p == p * (v / p)) by (nonlinear_arith);
    } else {
        lemma_fundamental_div_mod(-v, p);
        vstd::arithmetic::div_mod::lemma_mod_multiples_basic(-(v / p), p);
        assert((-v) % p == 0) by {
            assert(-v == (-(v / p)) * p) by (nonlinear_arith)
                requires
                    v == p * (v / p),
            ;
        }
        assert((-((-v) / p)) * p == -(p * ((-v) / p))) by (nonlinear_arith);
    }
}

/// Whether a reading converts from a unit to another and back without
/// loss: the other unit is the smaller one, or the ratio of the two divides
/// the reading.
pub open spec fn converts_exactly(v: int, from_exp: int, to_exp: int) -> bool {
    from_exp >= to_exp || v % pow10((to_exp - from_exp) as nat) == 0
}

/// The round trip of a reading: where `v` converts exactly from the unit
/// `A` to the unit `B` and `N` holds the result, converting the result back
/// to `A` gives `v`.
pub proof fn lemma_round_trip_value<N: Number + Exact, A: BasePrefix + Copy, B: BasePrefix + Copy>(
    v: Value<N, A>,
    b: B,
)
    requires
        converts_exactly(v@, A::exponent(), B::exponent()),
        v.converted_to(b).is_some(),
    ensures
        v.converted_to(b).unwrap().converted_to(v.unit) == Some(v),
{
    lemma_round_trip_lane::<N>(v.value, A::exponent(), B::exponent());
}

/// The round trip of a vector: where both lanes of `v` convert exactly from
/// the unit `A` to the unit `B` and `N` holds the results, converting the
/// result back to `A` gives `v`.
pub proof fn lemma_round_trip_vec2<N: Number + Exact, A: BasePrefix + Copy, B: BasePrefix + Copy>(
    v: Vec2<N, A>,
    b: B,
)
    requires
        converts_exactly(v@.0, A::exponent(), B::exponent()),
        converts_exactly(v@.1, A::exponent(), B::exponent()),
        v.converted_to(b).is_some(),
    ensures
        v.converted_to(b).unwrap().converted_to(v.unit) == Some(v),
{
    lemma_round_trip_lane::<N>(v.x, A::exponent(), B::exponent());
    lemma_round_trip_lane::<N>(v.y, A::exponent(), B::exponent());
}

/// The round trip of a rectangle: where the four lanes of `r` convert
/// exactly from the unit `A` to the unit `B` and `N` holds the results,
/// converting the result back to `A` gives `r`.
pub proof fn lemma_round_trip_rect<N: Number + Exact, A: BasePrefix + Copy, B: BasePrefix + Copy>(
    r: Rect<N, A>,
    b: B,
)
    requires
        converts_exactly(r.origin@.0, A::exponent(), B::exponent()),
        converts_exactly(r.origin@.1, A::exponent(), B::exponent()),
        converts_exactly(r.size@.0, A::exponent(), B::exponent()),
        converts_exactly(r.size@.1, A::exponent(), B::exponent()),
        r.converted_to(b).is_some(),
    ensures
        r.converted_to(b).unwrap().converted_to(r.unit) == Some(r),
{
    lemma_round_trip_lane::<N>(r.origin.x, A::exponent(), B::exponent());
    lemma_round_trip_lane::<N>(r.origin.y, A::exponent(), B::exponent());
    lemma_round_trip_lane::<N>(r.size.x, A::exponent(), B::exponent());
    lemma_round_trip_lane::<N>(r.size.y, A::exponent(), B::exponent());
    assert(r.origin.unit == ());
    assert(r.size.unit == ());
}

/// The round trip of one lane between the decimal exponents `from_exp` and
/// `to_exp`.
pub proof fn lemma_round_trip_lane<N: Number + Exact>(v: N, from_exp: int, to_exp: int)
    requires
        converts_exactly(v.value(), from_exp, to_exp),
    ensures
        narrow::<N>(scale_int(v.value(), from_exp - to_exp)) matches Some(w) ==> narrow::<N>(
            scale_int(w.value(), to_exp - from_exp),
        ) == Some(v),
{
    let d = from_exp - to_exp;
    let there = scale_int(v.value(), d);
    if in_range::<N>(there) {
        N::lemma_from_int(there);
        v.lemma_value();
        if d >= 0 {
            lemma_scale_up_down(v.value(), d);
        } else {
            lemma_scale_down_up(v.value(), d);
        }
    }
}

/// A rectangle holds its own two corners, and meets itself, exactly where
/// it is not inverted: `r.contains_rect(r)` and `r.intersects_rect(r)`
/// both return whether `r` is not negative.
pub proof fn lemma_rect_and_itself<N: Number, U: Unit + Copy>(r: Rect<N, U>)
    ensures
        (r.holds((r.min_x(), r.min_y())) && r.holds((r.max_x(), r.max_y()))) == !r.negative(),
        r.meets(r) == !r.negative(),
{
}

/// Two rectangles that share only an edge or a corner meet: where the max
/// corner of `a` is the min corner of `b` and neither is inverted, `a`
/// meets `b`.
pub proof fn lemma_touching_rects_meet<N: Number, U: Unit + Copy>(a: Rect<N, U>, b: Rect<N, U>)
    requires
        !a.negative(),
        !b.negative(),
        a.max_x() == b.min_x(),
        a.max_y() == b.min_y(),
    ensures
        a.meets(b),
        b.meets(a),
{
}

/// A rectangle that holds both corners of another meets it, unless the
/// other is inverted.
pub proof fn lemma_contained_rects_meet<N: Number, U: Unit + Copy>(a: Rect<N, U>, b: Rect<N, U>)
    requires
        a.holds((b.min_x(), b.min_y())),
        a.holds((b.max_x(), b.max_y())),
        !b.negative(),
    ensures
        a.meets(b),
{
}

/// Meeting goes both ways.
pub proof fn lemma_meeting_is_mutual<N: Number, U: Unit + Copy>(a: Rect<N, U>, b: Rect<N, U>)
    ensures
        a.meets(b) == b.meets(a),
{
}

/// Expanding by what a rectangle was shrunk by gives the rectangle back:
/// where `s` is what `r.shrink(v)` returns and `e` is what `s.expand(v)`
/// returns, `e` is `r`.
pub proof fn lemma_expand_undoes_shrink<N: Number + Exact, U: Unit + Copy>(
    r: Rect<N, U>,
    v: (int, int),
    s: Rect<N, U>,
    e: Rect<N, U>,
)
    requires
        s.origin@ == (r.origin@.0 + trunc_div(v.0, 2), r.origin@.1 + trunc_div(v.1, 2)),
        s.size@ == (r.size@.0 - v.0, r.size@.1 - v.1),
        s.unit == r.unit,
        e.origin@ == (s.origin@.0 - trunc_div(v.0, 2), s.origin@.1 - trunc_div(v.1, 2)),
        e.size@ == (s.size@.0 + v.0, s.size@.1 + v.1),
        e.unit == s.unit,
    ensures
        e == r,
{
    lemma_same_reading(e.origin.x, r.origin.x);
    lemma_same_reading(e.origin.y, r.origin.y);
    lemma_same_reading(e.size.x, r.size.x);
    lemma_same_reading(e.size.y, r.size.y);
    assert(e.origin.unit == r.origin.unit);
    assert(e.size.unit == r.size.unit);
}

/// Shrinking keeps the center where the amount is even and the size stays
/// positive: where `s` is what `r.shrink(v)` returns, `v` is even on both
/// axes and lies between zero and the size of `r`, the center of `s` is
/// the center of `r`.
pub proof fn lemma_shrink_keeps_center<N: Number, U: Unit + Copy>(
    r: Rect<N, U>,
    v: (int, int),
    s: Rect<N, U>,
)
    requires
        s.origin@ == (r.origin@.0 + trunc_div(v.0, 2), r.origin@.1 + trunc_div(v.1, 2)),
        s.size@ == (r.size@.0 - v.0, r.size@.1 - v.1),
        v.0 % 2 == 0,
        v.1 % 2 == 0,
        0 <= v.0 <= r.size@.0,
        0 <= v.1 <= r.size@.1,
    ensures
        s.mid_x() == r.mid_x(),
        s.mid_y() == r.mid_y(),
{
}

/// An inverted rectangle has no area, and so has a flat one; a rectangle
/// has no area exactly where it is inverted or flat on an axis.
pub proof fn lemma_negative_is_empty<N: Number, U: Unit + Copy>(r: Rect<N, U>)
    ensures
        r.negative() ==> r.empty(),
        r.empty() == (r.negative() || r.size@.0 == 0 || r.size@.1 == 0),
        r.negative() == (r.size@.0 < 0 || r.size@.1 < 0),
{
}

/// The rectangle between two corners has the second as its max corner:
/// where `r` is what `Rect::new_min_max(min, max)` returns, its max corner
/// is `max` and its size is `max - min`.
pub proof fn lemma_min_max_corners<N: Number, U: Unit + Copy>(
    r: Rect<N, U>,
    min: (int, int),
    max: (int, int),
)
    requires
        r.origin@ == min,
        r.size@ == eval2(Op::Sub, max, min),
    ensures
        (r.max_x(), r.max_y()) == max,
        (r.min_x(), r.min_y()) == min,
{
}

/// The part that two rectangles share is not inverted exactly where the
/// two meet: where `i` is what `a.intersection(b)` returns, `i` is negative
/// if and only if `a` and `b` do not meet.
pub proof fn lemma_intersection_and_meeting<N: Number, U: Unit + Copy>(
    a: Rect<N, U>,
    b: Rect<N, U>,
    i: Rect<N, U>,
)
    requires
        i.min_x() == vstd::math::max(a.min_x(), b.min_x()),
        i.min_y() == vstd::math::max(a.min_y(), b.min_y()),
        i.max_x() == vstd::math::min(a.max_x(), b.max_x()),
        i.max_y() == vstd::math::min(a.max_y(), b.max_y()),
        !a.negative(),
        !b.negative(),
    ensures
        i.negative() == !a.meets(b),
{
}

} // verus!
