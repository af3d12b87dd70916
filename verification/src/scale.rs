//! Decimal scaling of the widest machine integers.
use vstd::prelude::*;
use vstd::arithmetic::div_mod::{
    lemma_basic_div, lemma_div_denominator, lemma_div_is_ordered_by_denominator,
};
use vstd::arithmetic::power::{
    lemma_pow0, lemma_pow1, lemma_pow_adds, lemma_pow_increases, lemma_pow_positive,
};
use crate::number::{narrow, pow10, scale_int, trunc_div};

verus! {

/// Ten to the next power is ten times ten to the power.
pub proof fn lemma_pow10_step(e: nat)
    ensures
        pow10(0) == 1,
        pow10(e + 1) == pow10(e) * 10,
        pow10(e) >= 1,
{
    lemma_pow0(10);
    lemma_pow1(10);
    lemma_pow_adds(10, e, 1);
    lemma_pow_positive(10, e);
}

/// Powers of ten grow with the exponent.
pub proof fn lemma_pow10_grows(e1: nat, e2: nat)
    requires
        e1 <= e2,
    ensures
        1 <= pow10(e1) <= pow10(e2),
{
    lemma_pow_positive(10, e1);
    lemma_pow_increases(10, e1, e2);
}

/// A quotient of a magnitude by a power of ten lies between zero and the
/// magnitude.
pub proof fn lemma_quotient_bounds(v: int, e: nat)
    requires
        v >= 0,
    ensures
        0 <= v / pow10(e) <= v,
{
    lemma_pow10_grows(0, e);
    let p = pow10(e);
    assert(0 <= v / p <= v) by (nonlinear_arith)
        requires
            v >= 0,
            p >= 1,
    ;
}

/// A magnitude scales to a magnitude.
pub proof fn lemma_scale_magnitude(v: int, exp: int)
    requires
        v >= 0,
    ensures
        scale_int(v, exp) >= 0,
{
    if exp >= 0 {
        lemma_pow10_grows(0, exp as nat);
        let p = pow10(exp as nat);
        assert(v * p >= 0) by (nonlinear_arith)
            requires
                v >= 0,
                p >= 1,
        ;
    } else {
        lemma_quotient_bounds(v, (-exp) as nat);
    }
}

/// Scaling commutes with negation, since division rounds toward zero.
pub proof fn lemma_scale_negated(v: int, exp: int)
    ensures
        scale_int(-v, exp) == -scale_int(v, exp),
{
    if exp >= 0 {
        assert((-v) * pow10(exp as nat) == -(v * pow10(exp as nat))) by (nonlinear_arith);
    } else {
        lemma_pow10_grows(0, (-exp) as nat);
        let p = pow10((-exp) as nat);
        if v == 0 {
            assert(trunc_div(0, p) == 0) by {
                lemma_basic_div(0, p);
            }
        }
    }
}

/// Scales the magnitude `v` by ten to the power `exp`: the product where a
/// `u128` holds it, the quotient rounded down for a negative `exp`.
pub fn scale_u128(v: u128, exp: i16) -> (r: Option<u128>)
    ensures
        r == narrow::<u128>(scale_int(v as int, exp as int)),
{
    if v == 0 {
        proof {
            if exp >= 0 {
                assert(0 * pow10(exp as nat) == 0);
            } else {
                lemma_quotient_bounds(0, (-exp) as nat);
            }
        }
        return Some(0);
    }
    if exp >= 0 {
        let mut acc: u128 = v;
        let mut i: i16 = 0;
        proof {
            lemma_pow10_step(0);
            assert(v * pow10(0) == v) by (nonlinear_arith)
                requires
                    pow10(0) == 1,
            ;
        }
        while i < exp
            invariant
                0 <= i <= exp,
                v >= 1,
                acc == v * pow10(i as nat),
            decreases exp - i,
        {
            proof {
                lemma_pow10_step(i as nat);
                assert(v * (pow10(i as nat) * 10) == (v * pow10(i as nat)) * 10)
                    by (nonlinear_arith);
            }
            match acc.checked_mul(10) {
                Some(next) => {
                    acc = next;
                },
                None => {
                    proof {
                        lemma_pow10_grows((i + 1) as nat, exp as nat);
                        assert(v * pow10((i + 1) as nat) <= v * pow10(exp as nat))
                            by (nonlinear_arith)
                            requires
                                v >= 1,
                                pow10((i + 1) as nat) <= pow10(exp as nat),
                        ;
                    }
                    return None;
                },
            }
            i = i + 1;
        }
        Some(acc)
    } else {
        let steps: i32 = -(exp as i32);
        let mut acc: u128 = v;
        let mut i: i32 = 0;
        proof {
            lemma_pow10_step(0);
            assert(v as int / pow10(0) == v) by (nonlinear_arith)
                requires
                    pow10(0) == 1,
            ;
        }
        while i < steps && acc > 0
            invariant
                0 <= i <= steps,
                acc == v as int / pow10(i as nat),
            decreases steps - i,
        {
            proof {
                lemma_pow10_step(i as nat);
                lemma_div_denominator(v as int, pow10(i as nat), 10);
            }
            acc = acc / 10;
            i = i + 1;
        }
        proof {
            lemma_quotient_bounds(v as int, steps as nat);
            if i < steps {
                lemma_pow10_grows(i as nat, steps as nat);
                lemma_div_is_ordered_by_denominator(
                    v as int,
                    pow10(i as nat),
                    pow10(steps as nat),
                );
            }
        }
        Some(acc)
    }
}

/// Scales `v` by ten to the power `exp`: the product where an `i128` holds
/// it, the quotient rounded toward zero for a negative `exp`.
pub fn scale_i128(v: i128, exp: i16) -> (r: Option<i128>)
    ensures
        r == narrow::<i128>(scale_int(v as int, exp as int)),
{
    if v >= 0 {
        proof {
            lemma_scale_magnitude(v as int, exp as int);
        }
        match scale_u128(v as u128, exp) {
            Some(m) => {
                if m <= i128::MAX as u128 {
                    Some(m as i128)
                } else {
                    None
                }
            },
            None => None,
        }
    } else {
        let mag: u128 = (-(v + 1)) as u128 + 1;
        proof {
            lemma_scale_negated(v as int, exp as int);
            lemma_scale_magnitude(mag as int, exp as int);
        }
        match scale_u128(mag, exp) {
            Some(m) => {
                if m <= i128::MAX as u128 {
                    Some(-(m as i128))
                } else if m == i128::MAX as u128 + 1 {
                    Some(i128::MIN)
                } else {
                    None
                }
            },
            None => None,
        }
    }
}

} // verus!
