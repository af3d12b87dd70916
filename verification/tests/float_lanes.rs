//! The carriers over a lane type that is not an integer: a wrapper of `f32`
//! that supplies the numeric capability itself.

use mathie::unit::metric::cm;
use mathie::{Number, Op, Ranged, Rect, Vec2, Vec2D};
use num_traits::{NumCast, ToPrimitive};

#[derive(Clone, Copy, Debug, PartialEq, PartialOrd)]
struct F32(f32);

impl Ranged for F32 {}

impl Number for F32 {
    fn zero() -> Self {
        F32(0.0)
    }

    fn one() -> Self {
        F32(1.0)
    }

    fn from_i128(v: i128) -> Option<Self> {
        <f32 as NumCast>::from(v).map(F32)
    }

    fn from_u128(v: u128) -> Option<Self> {
        <f32 as NumCast>::from(v).map(F32)
    }

    fn to_i128(self) -> Option<i128> {
        self.0.to_i128()
    }

    fn to_u128(self) -> Option<u128> {
        self.0.to_u128()
    }

    fn apply(self, op: Op, rhs: Self) -> Self {
        F32(match op {
            Op::Add => self.0 + rhs.0,
            Op::Sub => self.0 - rhs.0,
            Op::Mul => self.0 * rhs.0,
            Op::Div => self.0 / rhs.0,
            Op::Rem => self.0 % rhs.0,
        })
    }

    fn half(self) -> Self {
        F32(self.0 / 2.0)
    }

    fn less_than(self, rhs: Self) -> bool {
        self.0 < rhs.0
    }

    fn scale(self, exp: i16) -> Option<Self> {
        let ratio = 10f64.powi(exp as i32);
        <f32 as NumCast>::from(self.0 as f64 * ratio).map(F32)
    }
}

fn rect(origin: [f32; 2], size: [f32; 2]) -> Rect<F32> {
    Rect::new([F32(origin[0]), F32(origin[1])], [F32(size[0]), F32(size[1])])
}

#[test]
fn contains() {
    let rect0 = rect([0.0f32, 0.0], [1.0, 1.0]);
    assert!(rect0.contains_rect(rect([0.0f32, 0.0], [1.0, 1.0])));
    assert!(rect0.contains_rect(rect([0.1f32, 0.1], [0.8, 0.8])));
    assert!(!rect0.contains_rect(rect([0.1f32, 0.1], [1.0, 1.0])));
    assert!(!rect0.contains_rect(rect([-0.1, -0.1], [1.1, 1.1])));
}

#[test]
fn overlaps() {
    let rect0 = rect([0.0f32, 0.0], [1.0, 1.0]);
    assert!(rect0.intersects_rect(rect([0.0f32, 0.0], [1.0, 1.0])));
    assert!(rect0.intersects_rect(rect([0.1f32, 0.1], [0.8, 0.8])));
    assert!(rect0.intersects_rect(rect([0.1f32, 0.1], [1.0, 1.0])));
    assert!(rect0.intersects_rect(rect([-0.1, -0.1], [1.2, 1.2])));
    assert!(rect0.intersects_rect(rect([-0.1f32, -0.1f32], [0.1, 0.1])));
    assert!(!rect0.intersects_rect(rect([1.11f32, 1.11], [1.0, 1.0])));
}

#[test]
fn cm_to_m_float() {
    let v0 = Vec2D::<u32, cm>::new(250, 250);
    let v1 = v0.try_cast::<F32>().unwrap().convert::<()>();
    assert_eq!(v1, Vec2D::new(F32(2.5), F32(2.5)));
}

#[test]
fn cast_discards_the_fraction() {
    let v0 = Vec2::<F32>::new(F32(250.5), F32(250.5));
    assert_eq!(v0.cast::<u32>(), Vec2::<u32>::new(250, 250));
    let v1 = Vec2::<F32>::new(F32(0.5), F32(0.5));
    assert_eq!(v1.cast::<u32>(), Vec2::<u32>::new(0, 0));
}

#[test]
fn lerp_between_fractions() {
    let v0 = Vec2::<F32>::new(F32(1.0), F32(1.0));
    let other = Vec2::<F32>::new(F32(2.0), F32(2.0));
    assert_eq!(v0.lerp(other, F32(0.0)), v0);
    assert_eq!(v0.lerp(other, F32(1.0)), other);
    assert_eq!(v0.lerp(other, F32(0.5)), Vec2::new(F32(1.5), F32(1.5)));
}

#[test]
fn halves_of_fractions() {
    let rect0 = rect([0.0, 0.0], [1.0, 1.0]);
    assert_eq!(rect0.center(), Vec2::new(F32(0.5), F32(0.5)));
    assert_eq!(rect0.shrink(Vec2::new(F32(1.0), F32(1.0))), rect([0.5, 0.5], [0.0, 0.0]));
    assert_eq!(rect0.shrink(Vec2::new(F32(0.5), F32(0.5))), rect([0.25, 0.25], [0.5, 0.5]));
    assert_eq!(rect0.expand(Vec2::new(F32(1.0), F32(1.0))), rect([-0.5, -0.5], [2.0, 2.0]));
    assert_eq!(rect0.expand(Vec2::new(F32(0.5), F32(0.5))), rect([-0.25, -0.25], [1.5, 1.5]));
}
