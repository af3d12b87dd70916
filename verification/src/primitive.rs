//! The machine integers as lane types, and the calls that give them their
//! identities and conversions.
use vstd::prelude::*;
use crate::number::{narrowed, Exact};

mod signed;
mod unsigned;

verus! {

/// `num_traits::Zero::zero`: the additive identity of `T`, which reads 0.
/// It is called for the machine integers.
#[verifier::external_body]
pub(crate) fn zero_of<T: Exact + num_traits::Zero>() -> (z: T)
    ensures
        z.value() == 0,
{
    <T as num_traits::Zero>::zero()
}

/// `num_traits::One::one`: the multiplicative identity of `T`, which reads
/// 1. It is called for the machine integers.
#[verifier::external_body]
pub(crate) fn one_of<T: Exact + num_traits::One>() -> (o: T)
    ensures
        o.value() == 1,
{
    <T as num_traits::One>::one()
}

/// `num_traits::NumCast::from`: the value of `B` that reads as `a` does
/// where the range of `B` holds that integer, and `None` where it does not.
/// It is called between machine integers.
#[verifier::external_body]
pub(crate) fn num_cast<A: Exact + num_traits::ToPrimitive, B: Exact + num_traits::NumCast>(
    a: A,
) -> (r: Option<B>)
    ensures
        narrowed(r, a.value()),
{
    <B as num_traits::NumCast>::from(a)
}

} // verus!
