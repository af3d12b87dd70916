//! The numeric capability that every lane type provides.
use vstd::prelude::*;

verus! {

/// The quotient of `a` by `b` rounded toward zero, the way machine integers divide.
pub open spec fn trunc_div(a: int, b: int) -> int {
    if a >= 0 {
        a / b
    } else {
        -((-a) / b)
    }
}

/// The remainder that goes with [`trunc_div`]: it has the sign of `a`.
pub open spec fn trunc_rem(a: int, b: int) -> int {
    if a >= 0 {
        a % b
    } else {
        -((-a) % b)
    }
}

/// Dividing by minus one negates.
pub proof fn lemma_trunc_div_minus_one(a: int)
    ensures
        trunc_div(a, -1) == -a,
{
    assert(a >= 0 ==> a / -1 == -a) by (nonlinear_arith);
    assert(a < 0 ==> (-a) / -1 == a) by (nonlinear_arith);
}

/// Ten to the power `e`.
pub open spec fn pow10(e: nat) -> int {
    vstd::arithmetic::power::pow(10, e)
}

/// The integer `v` scaled by ten to the power `exp`: multiplied where `exp`
/// is not negative, divided and rounded toward zero where it is.
pub open spec fn scale_int(v: int, exp: int) -> int {
    if exp >= 0 {
        v * pow10(exp as nat)
    } else {
        trunc_div(v, pow10((-exp) as nat))
    }
}

/// One of the five arithmetic operators.
#[derive(Clone, Copy, Debug, PartialEq, Eq, Structural)]
pub enum Op {
    Add,
    Sub,
    Mul,
    Div,
    Rem,
}

impl Op {
    /// What the operator computes on mathematical integers.
    pub open spec fn eval(self, a: int, b: int) -> int {
        match self {
            Op::Add => a + b,
            Op::Sub => a - b,
            Op::Mul => a * b,
            Op::Div => trunc_div(a, b),
            Op::Rem => trunc_rem(a, b),
        }
    }

    /// Whether the operator is a division, which has no result on a zero divisor.
    pub open spec fn divides(self) -> bool {
        self == Op::Div || self == Op::Rem
    }
}

/// The mathematical model of a lane type: each value reads as an integer,
/// and the type holds the integers of a range. A lane type states its own
/// reading and range. The bodies here are placeholders that say nothing of
/// a lane type: they let a lane type be written where nothing is proved of
/// it, such as one over a floating-point number.
pub trait Ranged: Copy + Sized {
    /// The integer that the value stands for.
    open spec fn value(self) -> int {
        0
    }

    /// The least integer that the type holds.
    open spec fn min_value() -> int {
        0
    }

    /// The greatest integer that the type holds.
    open spec fn max_value() -> int {
        0
    }

    /// The value of the type that stands for `v`, where the type holds `v`.
    open spec fn from_int(v: int) -> Self {
        arbitrary()
    }
}

/// A lane type whose values stand, one for one, for the integers of its
/// range. The machine integers are exact; the laws of arithmetic are
/// stated of exact lane types.
pub trait Exact: Ranged {
    /// The range lies within that of the widest machine integers and holds
    /// at least `0..=127`.
    proof fn lemma_range()
        ensures
            i128::MIN <= Self::min_value() <= 0,
            127 <= Self::max_value() <= u128::MAX,
    ;

    /// A value stands for an integer of the range, and for that one only.
    proof fn lemma_value(self)
        ensures
            Self::min_value() <= self.value() <= Self::max_value(),
            Self::from_int(self.value()) == self,
    ;

    /// Every integer of the range is the reading of a value.
    proof fn lemma_from_int(v: int)
        requires
            Self::min_value() <= v <= Self::max_value(),
        ensures
            Self::from_int(v).value() == v,
    ;
}

/// Whether the lane type `N` holds the integer `v`.
pub open spec fn in_range<N: Ranged>(v: int) -> bool {
    N::min_value() <= v <= N::max_value()
}

/// Whether `op` has a result in `N` on the readings `a` and `b`: the divisor
/// of a division is not zero, and the result (for a remainder, the quotient
/// too) lies in the range of `N`.
pub open spec fn defined<N: Ranged>(op: Op, a: int, b: int) -> bool {
    &&& op.divides() ==> b != 0 && in_range::<N>(trunc_div(a, b))
    &&& in_range::<N>(op.eval(a, b))
}

/// The checked conversion of the integer `v` to the lane type `N`: the value
/// that reads `v` where `N` holds it, and nothing where it does not.
pub open spec fn narrow<N: Ranged>(v: int) -> Option<N> {
    if in_range::<N>(v) {
        Some(N::from_int(v))
    } else {
        None
    }
}

/// Whether `r` is the checked conversion of the integer `v` to the lane type
/// `N`: a value that reads `v` where `N` holds it, and nothing where it does
/// not.
pub open spec fn narrowed<N: Ranged>(r: Option<N>, v: int) -> bool {
    &&& r == narrow::<N>(v)
    &&& r matches Some(x) ==> x.value() == v
}

/// A lane type: identities, the five operators, halving, an order, checked
/// conversions through the widest machine integers, and decimal scaling.
pub trait Number: Ranged {
    /// The additive identity.
    fn zero() -> (z: Self)
        ensures
            z.value() == 0,
    ;

    /// The multiplicative identity.
    fn one() -> (o: Self)
        ensures
            o.value() == 1,
    ;

    /// The value that reads `v`, where the type holds it.
    fn from_i128(v: i128) -> (r: Option<Self>)
        ensures
            narrowed(r, v as int),
    ;

    /// The value that reads `v`, where the type holds it.
    fn from_u128(v: u128) -> (r: Option<Self>)
        ensures
            narrowed(r, v as int),
    ;

    /// The reading as an `i128`, where it fits. A reading that does not
    /// fit is one that a `u128` holds.
    fn to_i128(self) -> (r: Option<i128>)
        ensures
            r == narrow::<i128>(self.value()),
            i128::MIN <= self.value() <= u128::MAX,
    ;

    /// The reading as a `u128`, where it fits. A reading that does not fit
    /// is one that an `i128` holds.
    fn to_u128(self) -> (r: Option<u128>)
        ensures
            r == narrow::<u128>(self.value()),
            i128::MIN <= self.value() <= u128::MAX,
    ;

    /// Applies `op` to `self` and `rhs`.
    fn apply(self, op: Op, rhs: Self) -> (r: Self)
        requires
            defined::<Self>(op, self.value(), rhs.value()),
        ensures
            r.value() == op.eval(self.value(), rhs.value()),
    ;

    /// Half of the value, rounded toward zero.
    fn half(self) -> (r: Self)
        ensures
            r.value() == trunc_div(self.value(), 2),
    ;

    /// Whether `self` is less than `rhs`.
    fn less_than(self, rhs: Self) -> (r: bool)
        ensures
            r == (self.value() < rhs.value()),
    ;

    /// The value scaled by ten to the power `exp`, where the type holds the
    /// result. A division rounds toward zero.
    fn scale(self, exp: i16) -> (r: Option<Self>)
        ensures
            narrowed(r, scale_int(self.value(), exp as int)),
    ;
}

/// Two values of an exact lane type with one reading are one value.
pub proof fn lemma_same_reading<N: Exact>(a: N, b: N)
    requires
        a.value() == b.value(),
    ensures
        a == b,
{
    a.lemma_value();
    b.lemma_value();
}

/// Converts `a` to the lane type `B`: the value with the same reading where
/// `B` holds it, `None` where it does not.
pub fn cast<A: Number, B: Number>(a: A) -> (r: Option<B>)
    ensures
        narrowed(r, a.value()),
{
    match a.to_u128() {
        Some(m) => B::from_u128(m),
        None => match a.to_i128() {
            Some(v) => B::from_i128(v),
            None => None,
        },
    }
}

/// Whether `a` is at most `b`.
pub fn at_most<N: Number>(a: N, b: N) -> (r: bool)
    ensures
        r == (a.value() <= b.value()),
{
    !b.less_than(a)
}

/// Whether `a` and `b` read the same.
pub fn same<N: Number>(a: N, b: N) -> (r: bool)
    ensures
        r == (a.value() == b.value()),
{
    !a.less_than(b) && !b.less_than(a)
}

/// The lesser of `a` and `b`.
pub fn lesser<N: Number>(a: N, b: N) -> (r: N)
    ensures
        r == (if a.value() <= b.value() { a } else { b }),
{
    if b.less_than(a) {
        b
    } else {
        a
    }
}

/// The greater of `a` and `b`.
pub fn greater<N: Number>(a: N, b: N) -> (r: N)
    ensures
        r == (if a.value() >= b.value() { a } else { b }),
{
    if a.less_than(b) {
        b
    } else {
        a
    }
}

} // verus!
