//! A single reading tagged with a unit.

use core::cmp::Ordering;
use mathie::unit::metric::{cm, km, Centimeter, Kilometer};
use mathie::{Op, Value};

#[test]
fn construction_and_reading() {
    let v = Value::new_any(7i32);
    assert_eq!(v.val(), 7);
    assert_eq!(v.unit(), ());
    let w = Value::<u8, cm>::new(9);
    assert_eq!(w.val(), 9);
    let u = Value::new_u(-3i64, Kilometer);
    assert_eq!(u.val(), -3);
    assert_eq!(u.any_unit(), Value::new_any(-3i64));
    assert_eq!(*u, -3);
}

#[test]
fn arithmetic_with_a_reading() {
    let a = Value::<i32, cm>::new(7);
    let b = Value::<i32, cm>::new(2);
    assert_eq!(a.apply(Op::Add, b).val(), 9);
    assert_eq!(a.apply(Op::Sub, b).val(), 5);
    assert_eq!(a.apply(Op::Mul, b).val(), 14);
    assert_eq!(a.apply(Op::Div, b).val(), 3);
    assert_eq!(a.apply(Op::Rem, b).val(), 1);
    assert_eq!((a + b).val(), 9);
    assert_eq!((a - b).val(), 5);
    assert_eq!((a * b).val(), 14);
    assert_eq!((a / b).val(), 3);
    assert_eq!((a % b).val(), 1);
}

#[test]
fn value_arithmetic_with_a_bare_number() {
    let a = Value::<i32, km>::new(-7);
    assert_eq!(a.apply_scalar(Op::Add, 2).val(), -5);
    assert_eq!(a.apply_scalar(Op::Sub, 2).val(), -9);
    assert_eq!(a.apply_scalar(Op::Mul, 2).val(), -14);
    assert_eq!(a.apply_scalar(Op::Div, 2).val(), -3);
    assert_eq!(a.apply_scalar(Op::Rem, 2).val(), -1);
    assert_eq!((a + 2).val(), -5);
    assert_eq!((a - 2).val(), -9);
    assert_eq!((a * 2).val(), -14);
    assert_eq!((a / 2).val(), -3);
    assert_eq!((a % 2).val(), -1);
}

#[test]
fn value_arithmetic_in_place() {
    let mut a = Value::<u16, Centimeter>::new(10);
    a.apply_assign(Op::Mul, Value::new(3));
    assert_eq!(a.val(), 30);
    a.apply_scalar_assign(Op::Sub, 5);
    assert_eq!(a.val(), 25);
    a.apply_scalar_assign(Op::Rem, 7);
    assert_eq!(a.val(), 4);
}

#[test]
fn value_lerp_runs_from_self_to_other() {
    let v0 = Value::new_any(10i32);
    let other = Value::new_any(20i32);
    assert_eq!(v0.lerp(other, 0), v0);
    assert_eq!(v0.lerp(other, 1), other);
    assert_eq!(v0.lerp(other, 3), Value::new_any(40));
    assert_eq!(other.lerp(v0, 2), Value::new_any(0));
}

#[test]
fn value_cast_is_checked() {
    let v = Value::<i32, cm>::new(300);
    assert_eq!(v.cast::<u16>(), Some(Value::<u16, cm>::new(300)));
    assert_eq!(v.cast::<u8>(), None);
    let w = Value::<i32, cm>::new(-1);
    assert_eq!(w.cast::<u64>(), None);
    assert_eq!(w.cast::<i8>(), Some(Value::<i8, cm>::new(-1)));
}

#[test]
fn conversion_between_units() {
    let v = Value::<i32, km>::new(2);
    assert_eq!(v.convert_def::<cm>(), Some(Value::<i32, cm>::new(200_000)));
    assert_eq!(v.convert_u(Centimeter), Some(Value::new_u(200_000, Centimeter)));
    assert_eq!(v.convert_def::<()>(), Some(Value::new_any(2000)));
    let w = Value::<u8, km>::new(2);
    assert_eq!(w.convert_def::<cm>(), None);
    let back = Value::<i32, cm>::new(250_000);
    assert_eq!(back.convert_def::<km>(), Some(Value::<i32, km>::new(2)));
}

#[test]
fn equality_and_order_go_by_the_reading() {
    let a = Value::new_any(3u8);
    let b = Value::new_any(4u8);
    assert!(a == a);
    assert!(a != b);
    assert!(a < b);
    assert!(b > a);
    assert!(a <= a);
    assert_eq!(a.partial_cmp(&b), Some(Ordering::Less));
    assert_eq!(b.partial_cmp(&a), Some(Ordering::Greater));
    assert_eq!(a.partial_cmp(&a), Some(Ordering::Equal));
    assert_eq!(a.cmp(&b), Ordering::Less);
    assert_eq!(b.cmp(&a), Ordering::Greater);
    assert_eq!(b.cmp(&b), Ordering::Equal);
}
