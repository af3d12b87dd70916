//! The machine integers as lane types.

use mathie::number::{at_most, cast, greater, lesser, same};
use mathie::scale::{scale_i128, scale_u128};
use mathie::{Number, Op};

#[test]
fn identities_read_zero_and_one() {
    assert_eq!(<i8 as Number>::zero(), 0);
    assert_eq!(<i8 as Number>::one(), 1);
    assert_eq!(<u64 as Number>::zero(), 0);
    assert_eq!(<u64 as Number>::one(), 1);
    assert_eq!(<i128 as Number>::zero(), 0);
    assert_eq!(<usize as Number>::one(), 1);
}

#[test]
fn from_wide_is_checked() {
    assert_eq!(<u8 as Number>::from_i128(255), Some(255));
    assert_eq!(<u8 as Number>::from_i128(256), None);
    assert_eq!(<u8 as Number>::from_i128(-1), None);
    assert_eq!(<i8 as Number>::from_i128(-128), Some(-128));
    assert_eq!(<i8 as Number>::from_i128(-129), None);
    assert_eq!(<i64 as Number>::from_u128(u128::MAX), None);
    assert_eq!(<i64 as Number>::from_u128(9_223_372_036_854_775_807), Some(i64::MAX));
    assert_eq!(<u128 as Number>::from_u128(u128::MAX), Some(u128::MAX));
    assert_eq!(<i128 as Number>::from_u128(u128::MAX), None);
}

#[test]
fn to_wide_is_checked() {
    assert_eq!(Number::to_i128(-5i8), Some(-5));
    assert_eq!(Number::to_u128(-5i8), None);
    assert_eq!(Number::to_u128(5i8), Some(5));
    assert_eq!(Number::to_i128(u128::MAX), None);
    assert_eq!(Number::to_u128(u128::MAX), Some(u128::MAX));
    assert_eq!(Number::to_i128(i128::MIN), Some(i128::MIN));
    assert_eq!(Number::to_u128(i128::MIN), None);
}

#[test]
fn cast_keeps_the_reading_or_fails() {
    assert_eq!(cast::<i64, u8>(255), Some(255));
    assert_eq!(cast::<i64, u8>(256), None);
    assert_eq!(cast::<i32, u32>(-1), None);
    assert_eq!(cast::<u8, i8>(200), None);
    assert_eq!(cast::<u8, i64>(5), Some(5));
    assert_eq!(cast::<u128, u128>(u128::MAX), Some(u128::MAX));
    assert_eq!(cast::<u128, i128>(u128::MAX), None);
    assert_eq!(cast::<i128, i8>(i128::MIN), None);
    assert_eq!(cast::<i128, i128>(i128::MIN), Some(i128::MIN));
    assert_eq!(cast::<isize, usize>(7), Some(7));
}

#[test]
fn apply_computes_each_operator() {
    assert_eq!(7i32.apply(Op::Add, 2), 9);
    assert_eq!(7i32.apply(Op::Sub, 9), -2);
    assert_eq!(7i32.apply(Op::Mul, -3), -21);
    assert_eq!(7i32.apply(Op::Div, 2), 3);
    assert_eq!(7i32.apply(Op::Rem, 2), 1);
    assert_eq!(200u8.apply(Op::Add, 55), 255);
    assert_eq!(200u8.apply(Op::Sub, 200), 0);
    assert_eq!(16u8.apply(Op::Mul, 15), 240);
    assert_eq!(200u8.apply(Op::Div, 7), 28);
    assert_eq!(200u8.apply(Op::Rem, 7), 4);
}

#[test]
fn division_rounds_toward_zero() {
    assert_eq!((-7i32).apply(Op::Div, 2), -3);
    assert_eq!((-7i32).apply(Op::Rem, 2), -1);
    assert_eq!(7i32.apply(Op::Div, -2), -3);
    assert_eq!(7i32.apply(Op::Rem, -2), 1);
    assert_eq!((-7i32).apply(Op::Div, -2), 3);
    assert_eq!((-7i32).apply(Op::Rem, -2), -1);
    assert_eq!(i64::MIN.apply(Op::Div, 1), i64::MIN);
    assert_eq!((-128i8).apply(Op::Rem, 3), -2);
}

#[test]
fn half_rounds_toward_zero() {
    assert_eq!(7u8.half(), 3);
    assert_eq!(7i16.half(), 3);
    assert_eq!((-7i16).half(), -3);
    assert_eq!((-1i16).half(), 0);
    assert_eq!(i128::MIN.half(), i128::MIN / 2);
    assert_eq!(u128::MAX.half(), u128::MAX / 2);
}

#[test]
fn order_of_readings() {
    assert!((-1i8).less_than(0));
    assert!(!0i8.less_than(0));
    assert!(!1u64.less_than(0));
    assert!(at_most(3u8, 3));
    assert!(at_most(2u8, 3));
    assert!(!at_most(4u8, 3));
    assert!(same(4i64, 4));
    assert!(!same(4i64, -4));
    assert_eq!(lesser(4i64, -4), -4);
    assert_eq!(greater(4i64, -4), 4);
    assert_eq!(lesser(9u8, 9), 9);
    assert_eq!(greater(9u8, 9), 9);
}

#[test]
fn scale_multiplies_by_a_power_of_ten() {
    assert_eq!(5i32.scale(0), Some(5));
    assert_eq!(5i32.scale(2), Some(500));
    assert_eq!((-5i32).scale(3), Some(-5000));
    assert_eq!(2u8.scale(2), Some(200));
    assert_eq!(3u8.scale(2), None);
    assert_eq!(1i8.scale(2), Some(100));
    assert_eq!((-1i8).scale(2), Some(-100));
    assert_eq!((-2i8).scale(2), None);
    assert_eq!(2_147_483_647i32.scale(1), None);
    assert_eq!(1u128.scale(38), Some(100_000_000_000_000_000_000_000_000_000_000_000_000));
    assert_eq!(4u128.scale(38), None);
    assert_eq!((-1i128).scale(38), Some(-100_000_000_000_000_000_000_000_000_000_000_000_000));
    assert_eq!((-2i128).scale(38), None);
}

#[test]
fn scale_of_zero_never_fails() {
    assert_eq!(0u8.scale(300), Some(0));
    assert_eq!(0i64.scale(i16::MAX), Some(0));
    assert_eq!(0i64.scale(i16::MIN), Some(0));
}

#[test]
fn scale_divides_and_rounds_toward_zero() {
    assert_eq!(250u32.scale(-2), Some(2));
    assert_eq!(299u32.scale(-2), Some(2));
    assert_eq!(99u32.scale(-2), Some(0));
    assert_eq!((-250i32).scale(-2), Some(-2));
    assert_eq!((-299i32).scale(-2), Some(-2));
    assert_eq!((-99i32).scale(-2), Some(0));
    assert_eq!(u128::MAX.scale(-38), Some(3));
    assert_eq!(u128::MAX.scale(-39), Some(0));
    assert_eq!(u128::MAX.scale(i16::MIN), Some(0));
    assert_eq!(
        i128::MIN.scale(-1),
        Some(-17_014_118_346_046_923_173_168_730_371_588_410_572)
    );
    assert_eq!(i128::MIN.scale(-39), Some(0));
}

#[test]
fn wide_scaling() {
    assert_eq!(scale_u128(7, 3), Some(7000));
    assert_eq!(scale_u128(7999, -3), Some(7));
    assert_eq!(scale_u128(u128::MAX, 0), Some(u128::MAX));
    assert_eq!(scale_u128(u128::MAX, 1), None);
    assert_eq!(scale_u128(0, 1000), Some(0));
    assert_eq!(scale_i128(-7, 3), Some(-7000));
    assert_eq!(scale_i128(-7999, -3), Some(-7));
    assert_eq!(scale_i128(i128::MIN, 0), Some(i128::MIN));
    assert_eq!(scale_i128(i128::MIN, 1), None);
    assert_eq!(scale_i128(i128::MAX, 1), None);
    assert_eq!(scale_i128(i128::MAX, 0), Some(i128::MAX));
    assert_eq!(
        scale_i128(-17_014_118_346_046_923_173_168_730_371_588_410_572, 1),
        Some(-170_141_183_460_469_231_731_687_303_715_884_105_720)
    );
}
