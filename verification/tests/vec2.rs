//! A pair of readings that share one unit.

use core::cmp::Ordering;
use mathie::unit::metric::{cm, Centimeter};
use mathie::{Op, Value, Vec2, Vec2D};

#[test]
fn vec2_construction() {
    let v = Vec2::new_any(1i32, 2);
    assert_eq!(v.x().val(), 1);
    assert_eq!(v.y().val(), 2);
    assert_eq!(v.unit(), ());
    assert_eq!(Vec2::<u8, cm>::new(3, 4), Vec2::new_u(3, 4, Centimeter));
    assert_eq!(Vec2::<u8>::split(9), Vec2::new_any(9, 9));
    assert_eq!(Vec2::<i64>::zero(), Vec2::new_any(0, 0));
    assert_eq!(Vec2::<i64>::one(), Vec2::new_any(1, 1));
    assert_eq!(Vec2D::<i64, ()>::one(), Vec2::<i64>::one());
    assert_eq!(Vec2::<u8, cm>::new(3, 4).any_unit(), Vec2::new_any(3, 4));
}

#[test]
fn lanes_come_out_tagged() {
    let v = Vec2::<i32, cm>::new(5, -6);
    assert_eq!(v.x(), Value::<i32, cm>::new(5));
    assert_eq!(v.y(), Value::<i32, cm>::new(-6));
    assert_eq!(v.xy(), v);
    assert_eq!(v.yx(), Vec2::new(-6, 5));
}

#[test]
fn plain_shapes() {
    let v: Vec2<i32> = Vec2::from([1, 2]);
    assert_eq!(v, Vec2::new_any(1, 2));
    let w: Vec2<i32, cm> = (3, 4).into();
    assert_eq!(w, Vec2::new(3, 4));
    let pair: [i32; 2] = w.into();
    assert_eq!(pair, [3, 4]);
    let tuple: (i32, i32) = v.into();
    assert_eq!(tuple, (1, 2));
}

#[test]
fn vec2_cast_is_checked() {
    let v = Vec2::<i32>::new(250, 5);
    assert_eq!(v.cast::<u8>(), Vec2::<u8>::new(250, 5));
    assert_eq!(v.try_cast::<u8>(), Some(Vec2::<u8>::new(250, 5)));
    assert_eq!(v.try_cast::<i8>(), None);
    assert_eq!(Vec2::<i32>::new(5, 250).try_cast::<i8>(), None);
    assert_eq!(Vec2::<i32>::new(-1, 0).try_cast::<u64>(), None);
    assert_eq!(Vec2::<i32>::new(0, -1).try_cast::<u64>(), None);
}

#[test]
fn any_and_all() {
    let v0 = Vec2::<i32>::new(2, 1);
    assert!(v0.any(|v| v == 1));
    assert!(v0.any(|v| v == 2));
    assert!(!v0.any(|v| v == 3));
    assert!(!v0.all(|v| v == 1));
    assert!(v0.all(|v| v > 0));
    assert!(!v0.all(|v| v > 1));
}

#[test]
fn map_each_lane() {
    let v0 = Vec2::<i32>::new(1, 1);
    assert_eq!(v0.map(|v| v + 2), Vec2::new(3, 3));
    assert_eq!(v0.map(|v| (v * 200) as u8), Vec2::<u8>::new(200, 200));
    assert_eq!(v0.map_x(|v| v + 2), Vec2::new(3, 1));
    assert_eq!(v0.map_y(|v| v + 2), Vec2::new(1, 3));
}

#[test]
fn move_one_lane() {
    let v0 = Vec2::<i32>::new(1, 1);
    let other = Vec2::<i32>::new(0, 0);
    assert_eq!(v0.move_x(other), Vec2::new(0, 1));
    assert_eq!(v0.move_y(other), Vec2::new(1, 0));
}

#[test]
fn reduce_the_two_lanes() {
    assert_eq!(Vec2::<i32>::new(1, 1).add_xy().val(), 2);
    assert_eq!(Vec2::<i32>::new(1, 2).sub_xy().val(), -1);
    assert_eq!(Vec2::<i32>::new(2, 2).mul_xy().val(), 4);
    assert_eq!(Vec2::<i32>::new(9, 4).div_xy().val(), 2);
    assert_eq!(Vec2::<i32>::new(2, 4).div_xy().val(), 0);
    assert_eq!(Vec2::<i32>::new(2, 4).div_yx().val(), 2);
    assert_eq!(Vec2::<i32>::new(9, 4).reduce(Op::Rem).val(), 1);
    assert_eq!(Vec2::<i32, cm>::new(9, 4).add_xy(), Value::<i32, cm>::new(13));
}

#[test]
fn least_and_greatest() {
    let v0 = Vec2::<i32>::new(1, 2);
    let other = Vec2::<i32>::new(5, 1);
    assert_eq!(v0.min_val().val(), 1);
    assert_eq!(v0.max_val().val(), 2);
    assert_eq!(other.min_val().val(), 1);
    assert_eq!(other.max_val().val(), 5);
    assert_eq!(v0.min(other), Vec2::new(1, 1));
    assert_eq!(v0.max(other), Vec2::new(5, 2));
}

#[test]
fn vec2_lerp_runs_from_self_to_other() {
    let v0 = Vec2::<i32>::new(10, 10);
    let other = Vec2::<i32>::new(20, 30);
    assert_eq!(v0.lerp(other, 0), v0);
    assert_eq!(v0.lerp(other, 1), other);
    assert_eq!(v0.lerp(other, 2), Vec2::new(30, 50));
}

#[test]
fn componentwise_arithmetic() {
    let a = Vec2::<i32>::new(7, -8);
    let b = Vec2::<i32>::new(2, 3);
    assert_eq!(a.apply(Op::Add, b), Vec2::new(9, -5));
    assert_eq!(a.apply(Op::Sub, b), Vec2::new(5, -11));
    assert_eq!(a.apply(Op::Mul, b), Vec2::new(14, -24));
    assert_eq!(a.apply(Op::Div, b), Vec2::new(3, -2));
    assert_eq!(a.apply(Op::Rem, b), Vec2::new(1, -2));
    assert_eq!(a + b, Vec2::new(9, -5));
    assert_eq!(a - b, Vec2::new(5, -11));
    assert_eq!(a * b, Vec2::new(14, -24));
    assert_eq!(a / b, Vec2::new(3, -2));
    assert_eq!(a % b, Vec2::new(1, -2));
    assert_eq!(-a, Vec2::new(-7, 8));
    assert_eq!(a.negated(), Vec2::new(-7, 8));
}

#[test]
fn vec2_arithmetic_with_a_bare_number() {
    let a = Vec2::<i32, cm>::new(7, -8);
    assert_eq!(a.apply_scalar(Op::Add, 2), Vec2::new(9, -6));
    assert_eq!(a.apply_scalar(Op::Sub, 2), Vec2::new(5, -10));
    assert_eq!(a.apply_scalar(Op::Mul, 2), Vec2::new(14, -16));
    assert_eq!(a.apply_scalar(Op::Div, 2), Vec2::new(3, -4));
    assert_eq!(a.apply_scalar(Op::Rem, 2), Vec2::new(1, 0));
    assert_eq!(a + 2, Vec2::new(9, -6));
    assert_eq!(a - 2, Vec2::new(5, -10));
    assert_eq!(a * 2, Vec2::new(14, -16));
    assert_eq!(a / 2, Vec2::new(3, -4));
    assert_eq!(a % 2, Vec2::new(1, 0));
}

#[test]
fn vec2_arithmetic_in_place() {
    let mut a = Vec2::<u8>::new(10, 20);
    a.apply_assign(Op::Add, Vec2::new(1, 2));
    assert_eq!(a, Vec2::new(11, 22));
    a.apply_scalar_assign(Op::Div, 2);
    assert_eq!(a, Vec2::new(5, 11));
}

#[test]
fn adding_zero_and_multiplying_by_one_change_nothing() {
    let v = Vec2::<i8, cm>::new(-128, 127);
    assert_eq!(v + Vec2::zero(), v);
    assert_eq!(v * 1, v);
    assert_eq!(v * Vec2::one(), v);
    let w = Vec2::<u64>::new(0, u64::MAX);
    assert_eq!(w + Vec2::zero(), w);
    assert_eq!(w * 1, w);
}

#[test]
fn subtracting_what_was_added_gives_the_first_back() {
    let a = Vec2::<i32>::new(100, -7);
    let b = Vec2::<i32>::new(-350, 9);
    assert_eq!((a + b) - b, a);
    let c = Vec2::<u8>::new(200, 0);
    let d = Vec2::<u8>::new(55, 255);
    assert_eq!((c + d) - d, c);
}

#[test]
fn equality_goes_by_both_lanes() {
    assert!(Vec2::<i32>::new(1, 2) == Vec2::new(1, 2));
    assert!(Vec2::<i32>::new(1, 2) != Vec2::new(1, 3));
    assert!(Vec2::<i32>::new(1, 2) != Vec2::new(0, 2));
}

#[test]
fn order_is_the_sign_of_the_summed_codes() {
    let a = Vec2::<i32>::new(2, 0);
    let b = Vec2::<i32>::new(1, 1);
    assert_eq!(a.partial_cmp(&b), Some(Ordering::Equal));
    assert!(a != b);
    assert_eq!(Vec2::<i32>::new(1, 1).partial_cmp(&Vec2::new(1, 1)), Some(Ordering::Equal));
    assert_eq!(Vec2::<i32>::new(2, 1).partial_cmp(&Vec2::new(1, 1)), Some(Ordering::Greater));
    assert_eq!(Vec2::<i32>::new(2, 2).partial_cmp(&Vec2::new(1, 1)), Some(Ordering::Greater));
    assert_eq!(Vec2::<i32>::new(0, 1).partial_cmp(&Vec2::new(1, 1)), Some(Ordering::Less));
    assert_eq!(Vec2::<i32>::new(0, 0).partial_cmp(&Vec2::new(1, 1)), Some(Ordering::Less));
    assert_eq!(Vec2::<i32>::new(0, 9).partial_cmp(&Vec2::new(1, 1)), Some(Ordering::Equal));
    assert_eq!(a.cmp(&b), Ordering::Equal);
    assert_eq!(Vec2::<i32>::new(2, 1).cmp(&Vec2::new(1, 1)), Ordering::Greater);
    assert_eq!(Vec2::<i32>::new(0, 1).cmp(&Vec2::new(1, 1)), Ordering::Less);
    assert!(Vec2::<i32>::new(2, 1) > Vec2::new(1, 1));
    assert!(Vec2::<i32>::new(0, 1) < Vec2::new(1, 1));
}

#[test]
fn equal_in_order_is_not_transitive() {
    let a = Vec2::<i32>::new(0, 0);
    let b = Vec2::<i32>::new(2, -1);
    let c = Vec2::<i32>::new(1, 1);
    assert_eq!(a.partial_cmp(&b), Some(Ordering::Equal));
    assert_eq!(b.partial_cmp(&c), Some(Ordering::Equal));
    assert_eq!(a.partial_cmp(&c), Some(Ordering::Less));
}

#[test]
fn lexicographic_order_goes_by_x_then_y() {
    let a = Vec2::<i32>::new(2, 0);
    let b = Vec2::<i32>::new(1, 1);
    assert_eq!(a.lexicographic(&b), Ordering::Greater);
    assert_eq!(b.lexicographic(&a), Ordering::Less);
    assert_eq!(a.lexicographic(&a), Ordering::Equal);
    assert_eq!(Vec2::<i32>::new(1, 0).lexicographic(&b), Ordering::Less);
    assert_eq!(Vec2::<i32>::new(1, 2).lexicographic(&b), Ordering::Greater);
}
