//! An axis-aligned rectangle.

use core::cmp::Ordering;
use mathie::unit::metric::{cm, Centimeter};
use mathie::{Op, Rect, Vec2};

fn rect(origin: [i32; 2], size: [i32; 2]) -> Rect<i32> {
    Rect::new(origin, size)
}

#[test]
fn rect_construction() {
    let r = rect([1, 2], [3, 4]);
    assert_eq!(r.origin(), Vec2::new(1, 2));
    assert_eq!(r.size(), Vec2::new(3, 4));
    assert_eq!(r.unit(), ());
    assert_eq!(r, Rect::new_any([1, 2], [3, 4]));
    assert_eq!(Rect::<u8, cm>::new([1, 2], [3, 4]), Rect::new_u([1, 2], [3, 4], Centimeter));
    assert_eq!(Rect::<u8, cm>::new([1, 2], [3, 4]).origin(), Vec2::<u8, cm>::new(1, 2));
}

#[test]
fn from_min_and_max() {
    let r: Rect<i32> = Rect::new_min_max([0, 0], [2, 3]);
    assert_eq!(r.size(), Vec2::new(2, 3));
    assert_eq!(r.max(), Vec2::new(2, 3));
    assert_eq!(r.min(), Vec2::new(0, 0));
    let s: Rect<i32> = Rect::new_min_max([5, -1], [2, 3]);
    assert_eq!(s.origin(), Vec2::new(5, -1));
    assert_eq!(s.size(), Vec2::new(-3, 4));
    assert_eq!(s.max(), Vec2::new(2, 3));
}

#[test]
fn zero_and_one() {
    assert_eq!(Rect::<i32>::zero(), rect([0, 0], [0, 0]));
    assert_eq!(Rect::<i32>::one(), rect([0, 0], [1, 1]));
    assert_eq!(Rect::<i32>::one().origin(), Vec2::zero());
    assert_eq!(Rect::<i32>::one().size(), Vec2::one());
}

#[test]
fn rect_cast_is_checked() {
    let r = rect([1, 2], [3, 250]);
    assert_eq!(r.cast::<u8>(), Rect::<u8>::new([1, 2], [3, 250]));
    assert_eq!(r.try_cast::<u8>(), Some(Rect::<u8>::new([1, 2], [3, 250])));
    assert_eq!(r.try_cast::<i8>(), None);
    assert_eq!(rect([-1, 0], [1, 1]).try_cast::<u8>(), None);
    assert_eq!(rect([0, 0], [1, -1]).try_cast::<u8>(), None);
}

#[test]
fn a_rectangle_contains_and_meets_itself() {
    let r = rect([-3, 4], [10, 20]);
    assert!(r.contains_rect(r));
    assert!(r.intersects_rect(r));
    let flat = rect([1, 1], [0, 0]);
    assert!(flat.contains_rect(flat));
    assert!(flat.intersects_rect(flat));
}

#[test]
fn an_inverted_rectangle_does_not_contain_itself() {
    let r = rect([0, 0], [-1, -1]);
    assert!(!r.contains_rect(r));
    assert!(!r.intersects_rect(r));
}

#[test]
fn touching_counts_as_intersecting() {
    let one = Rect::<i32>::one();
    assert!(one.intersects_rect(rect([1, 1], [1, 1])));
    assert!(rect([1, 1], [1, 1]).intersects_rect(one));
    assert!(one.intersects_rect(rect([1, 0], [1, 1])));
    assert!(one.intersects_rect(rect([-1, -1], [1, 1])));
    assert!(!one.intersects_rect(rect([2, 2], [1, 1])));
    assert!(!one.intersects_rect(rect([2, 0], [1, 1])));
    assert!(!one.intersects_rect(rect([0, 2], [1, 1])));
    assert!(!one.intersects_rect(rect([-3, 0], [2, 1])));
    assert!(!one.intersects_rect(rect([0, -3], [1, 2])));
}

#[test]
fn containing_a_rectangle() {
    let r = rect([0, 0], [100, 100]);
    assert!(r.contains_rect(rect([0, 0], [100, 100])));
    assert!(r.contains_rect(rect([10, 10], [80, 80])));
    assert!(!r.contains_rect(rect([10, 10], [100, 100])));
    assert!(!r.contains_rect(rect([-10, -10], [110, 110])));
    assert!(!r.contains_rect(rect([100, 100], [100, 100])));
    assert!(r.contains_rect(rect([100, 100], [0, 0])));
}

#[test]
fn the_edges_belong_to_the_rectangle() {
    let r = rect([0, 0], [10, 10]);
    assert!(r.contains_pos(Vec2::new(5, 5)));
    assert!(r.contains_pos(Vec2::new(0, 0)));
    assert!(r.contains_pos(Vec2::new(10, 10)));
    assert!(r.contains_pos(Vec2::new(0, 10)));
    assert!(r.contains_pos(Vec2::new(10, 0)));
    assert!(!r.contains_pos(Vec2::new(0, -1)));
    assert!(!r.contains_pos(Vec2::new(-1, 0)));
    assert!(!r.contains_pos(Vec2::new(11, 10)));
    assert!(!r.contains_pos(Vec2::new(10, 11)));
}

#[test]
fn negative_and_empty() {
    assert!(rect([0, 0], [-1, -1]).is_negative());
    assert!(rect([0, 0], [-1, -1]).is_empty());
    assert!(!rect([0, 0], [0, 0]).is_negative());
    assert!(rect([0, 0], [0, 0]).is_empty());
    assert!(!rect([0, 0], [1, 1]).is_negative());
    assert!(!rect([0, 0], [1, 1]).is_empty());
    assert!(rect([0, 0], [-1, 1]).is_negative());
    assert!(rect([0, 0], [1, -1]).is_negative());
    assert!(!rect([0, 0], [0, 1]).is_negative());
    assert!(rect([0, 0], [0, 1]).is_empty());
    assert!(rect([0, 0], [1, 0]).is_empty());
    assert!(!rect([7, 7], [1, 1]).is_empty());
}

#[test]
fn shrink_and_expand_about_the_center() {
    let r = rect([0, 0], [10, 10]);
    assert_eq!(r.shrink(Vec2::new(4, 2)), rect([2, 1], [6, 8]));
    assert_eq!(r.expand(Vec2::new(4, 2)), rect([-2, -1], [14, 12]));
    assert_eq!(r.shrink(Vec2::new(10, 10)), rect([5, 5], [0, 0]));
    assert_eq!(r.shrink(Vec2::new(4, 2)).center(), r.center());
    assert_eq!(r.expand(Vec2::new(4, 2)).center(), r.center());
    assert_eq!(r.shrink(Vec2::new(3, 1)), rect([1, 0], [7, 9]));
    assert_eq!(r.expand(Vec2::new(3, 1)), rect([-1, 0], [13, 11]));
    assert_eq!(r.shrink(Vec2::new(4, 2)).expand(Vec2::new(4, 2)), r);
}

#[test]
fn corners() {
    let r = rect([1, 2], [10, 20]);
    assert_eq!(r.top_left(), Vec2::new(1, 2));
    assert_eq!(r.top_right(), Vec2::new(11, 2));
    assert_eq!(r.bottom_right(), Vec2::new(11, 22));
    assert_eq!(r.bottom_left(), Vec2::new(1, 22));
    assert_eq!(r.min(), Vec2::new(1, 2));
    assert_eq!(r.max(), Vec2::new(11, 22));
}

#[test]
fn edges_and_centers() {
    let r = rect([1, 2], [10, 20]);
    assert_eq!(r.top(), 2);
    assert_eq!(r.left(), 1);
    assert_eq!(r.bottom(), 22);
    assert_eq!(r.right(), 11);
    assert_eq!(r.center(), Vec2::new(6, 12));
    assert_eq!(r.top_center(), Vec2::new(6, 2));
    assert_eq!(r.bottom_center(), Vec2::new(6, 22));
    assert_eq!(r.center_left(), Vec2::new(1, 12));
    assert_eq!(r.center_right(), Vec2::new(11, 12));
    assert_eq!(rect([0, 0], [5, -5]).center(), Vec2::new(2, -2));
}

#[test]
fn intersection_of_two_rectangles() {
    let a = rect([0, 0], [10, 10]);
    let b = rect([5, 6], [10, 10]);
    assert_eq!(a.intersection(b), rect([5, 6], [5, 4]));
    assert_eq!(b.intersection(a), rect([5, 6], [5, 4]));
    assert_eq!(a.intersection(a), a);
    let inner = rect([2, 3], [1, 1]);
    assert_eq!(a.intersection(inner), inner);
    let touching = rect([10, 10], [5, 5]);
    assert_eq!(a.intersection(touching), rect([10, 10], [0, 0]));
    assert!(a.intersection(touching).is_empty());
    assert!(!a.intersection(touching).is_negative());
    let apart = rect([20, 30], [5, 5]);
    assert_eq!(a.intersection(apart), rect([20, 30], [-10, -20]));
    assert!(a.intersection(apart).is_negative());
}

#[test]
fn arithmetic_on_origin_and_size() {
    let a = rect([7, -8], [9, 10]);
    let b = rect([2, 3], [4, 5]);
    assert_eq!(a.apply(Op::Add, b), rect([9, -5], [13, 15]));
    assert_eq!(a.apply(Op::Sub, b), rect([5, -11], [5, 5]));
    assert_eq!(a.apply(Op::Mul, b), rect([14, -24], [36, 50]));
    assert_eq!(a.apply(Op::Div, b), rect([3, -2], [2, 2]));
    assert_eq!(a.apply(Op::Rem, b), rect([1, -2], [1, 0]));
    assert_eq!(a + b, rect([9, -5], [13, 15]));
    assert_eq!(a - b, rect([5, -11], [5, 5]));
    assert_eq!(a * b, rect([14, -24], [36, 50]));
    assert_eq!(a / b, rect([3, -2], [2, 2]));
    assert_eq!(a % b, rect([1, -2], [1, 0]));
}

#[test]
fn arithmetic_with_a_vector_and_a_bare_number() {
    let a = rect([7, -8], [9, 10]);
    let v = Vec2::<i32>::new(2, 3);
    assert_eq!(a.apply_vec(Op::Add, v), rect([9, -5], [11, 13]));
    assert_eq!(a.apply_vec(Op::Mul, v), rect([14, -24], [18, 30]));
    assert_eq!(a + v, rect([9, -5], [11, 13]));
    assert_eq!(a - v, rect([5, -11], [7, 7]));
    assert_eq!(a * v, rect([14, -24], [18, 30]));
    assert_eq!(a / v, rect([3, -2], [4, 3]));
    assert_eq!(a % v, rect([1, -2], [1, 1]));
    assert_eq!(a.apply_scalar(Op::Sub, 1), rect([6, -9], [8, 9]));
    assert_eq!(a + 1, rect([8, -7], [10, 11]));
    assert_eq!(a - 1, rect([6, -9], [8, 9]));
    assert_eq!(a * 2, rect([14, -16], [18, 20]));
    assert_eq!(a / 2, rect([3, -4], [4, 5]));
    assert_eq!(a % 2, rect([1, 0], [1, 0]));
}

#[test]
fn rect_arithmetic_in_place() {
    let mut a = rect([1, 2], [3, 4]);
    a.apply_assign(Op::Add, rect([1, 1], [1, 1]));
    assert_eq!(a, rect([2, 3], [4, 5]));
    a.apply_vec_assign(Op::Mul, Vec2::new(2, 3));
    assert_eq!(a, rect([4, 9], [8, 15]));
    a.apply_scalar_assign(Op::Sub, 4);
    assert_eq!(a, rect([0, 5], [4, 11]));
}

#[test]
fn equality_goes_by_origin_and_size() {
    assert!(rect([1, 2], [3, 4]) == rect([1, 2], [3, 4]));
    assert!(rect([1, 2], [3, 4]) != rect([0, 2], [3, 4]));
    assert!(rect([1, 2], [3, 4]) != rect([1, 0], [3, 4]));
    assert!(rect([1, 2], [3, 4]) != rect([1, 2], [0, 4]));
    assert!(rect([1, 2], [3, 4]) != rect([1, 2], [3, 0]));
}

#[test]
fn order_sets_the_origins_against_the_sizes() {
    let a = rect([0, 0], [1, 1]);
    assert_eq!(a.partial_cmp(&a), Some(Ordering::Equal));
    assert_eq!(a.cmp(&a), Ordering::Equal);
    assert_eq!(a.partial_cmp(&rect([1, 1], [1, 1])), Some(Ordering::Less));
    assert_eq!(a.partial_cmp(&rect([-1, -1], [1, 1])), Some(Ordering::Greater));
    assert_eq!(a.partial_cmp(&rect([0, 0], [0, 0])), Some(Ordering::Less));
    assert_eq!(a.partial_cmp(&rect([0, 0], [2, 2])), Some(Ordering::Greater));
    assert_eq!(a.partial_cmp(&rect([1, 1], [2, 2])), Some(Ordering::Equal));
    assert_eq!(a.partial_cmp(&rect([1, 1], [0, 0])), Some(Ordering::Less));
    assert_eq!(a.cmp(&rect([-1, -1], [2, 2])), Ordering::Greater);
    assert!(a < rect([1, 1], [1, 1]));
}
