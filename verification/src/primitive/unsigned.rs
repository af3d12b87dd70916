//! The unsigned machine integers as lane types.
use vstd::prelude::*;
use crate::number::{Exact, Number, Op, Ranged};
use crate::primitive::{num_cast, one_of, zero_of};
use crate::scale::scale_u128;

verus! {

impl Ranged for u8 {
    open spec fn value(self) -> int {
        self as int
    }

    open spec fn min_value() -> int {
        u8::MIN as int
    }

    open spec fn max_value() -> int {
        u8::MAX as int
    }

    open spec fn from_int(v: int) -> Self {
        v as u8
    }
}

impl Exact for u8 {
    proof fn lemma_range() {
    }

    proof fn lemma_value(self) {
    }

    proof fn lemma_from_int(v: int) {
    }
}

impl Number for u8 {
    fn zero() -> (z: Self) {
        zero_of::<u8>()
    }

    fn one() -> (o: Self) {
        one_of::<u8>()
    }

    fn from_i128(v: i128) -> (r: Option<Self>) {
        num_cast::<i128, u8>(v)
    }

    fn from_u128(v: u128) -> (r: Option<Self>) {
        num_cast::<u128, u8>(v)
    }

    fn to_i128(self) -> (r: Option<i128>) {
        num_cast::<u8, i128>(self)
    }

    fn to_u128(self) -> (r: Option<u128>) {
        num_cast::<u8, u128>(self)
    }

    fn apply(self, op: Op, rhs: Self) -> (r: Self) {
        match op {
            Op::Add => self + rhs,
            Op::Sub => self - rhs,
            Op::Mul => self * rhs,
            Op::Div => self / rhs,
            Op::Rem => self % rhs,
        }
    }

    fn half(self) -> (r: Self) {
        self / 2
    }

    fn less_than(self, rhs: Self) -> (r: bool) {
        self < rhs
    }

    fn scale(self, exp: i16) -> (r: Option<Self>) {
        match scale_u128(self as u128, exp) {
            Some(w) => num_cast::<u128, u8>(w),
            None => None,
        }
    }
}

impl Ranged for u16 {
    open spec fn value(self) -> int {
        self as int
    }

    open spec fn min_value() -> int {
        u16::MIN as int
    }

    open spec fn max_value() -> int {
        u16::MAX as int
    }

    open spec fn from_int(v: int) -> Self {
        v as u16
    }
}

impl Exact for u16 {
    proof fn lemma_range() {
    }

    proof fn lemma_value(self) {
    }

    proof fn lemma_from_int(v: int) {
    }
}

impl Number for u16 {
    fn zero() -> (z: Self) {
        zero_of::<u16>()
    }

    fn one() -> (o: Self) {
        one_of::<u16>()
    }

    fn from_i128(v: i128) -> (r: Option<Self>) {
        num_cast::<i128, u16>(v)
    }

    fn from_u128(v: u128) -> (r: Option<Self>) {
        num_cast::<u128, u16>(v)
    }

    fn to_i128(self) -> (r: Option<i128>) {
        num_cast::<u16, i128>(self)
    }

    fn to_u128(self) -> (r: Option<u128>) {
        num_cast::<u16, u128>(self)
    }

    fn apply(self, op: Op, rhs: Self) -> (r: Self) {
        match op {
            Op::Add => self + rhs,
            Op::Sub => self - rhs,
            Op::Mul => self * rhs,
            Op::Div => self / rhs,
            Op::Rem => self % rhs,
        }
    }

    fn half(self) -> (r: Self) {
        self / 2
    }

    fn less_than(self, rhs: Self) -> (r: bool) {
        self < rhs
    }

    fn scale(self, exp: i16) -> (r: Option<Self>) {
        match scale_u128(self as u128, exp) {
            Some(w) => num_cast::<u128, u16>(w),
            None => None,
        }
    }
}

impl Ranged for u32 {
    open spec fn value(self) -> int {
        self as int
    }

    open spec fn min_value() -> int {
        u32::MIN as int
    }

    open spec fn max_value() -> int {
        u32::MAX as int
    }

    open spec fn from_int(v: int) -> Self {
        v as u32
    }
}

impl Exact for u32 {
    proof fn lemma_range() {
    }

    proof fn lemma_value(self) {
    }

    proof fn lemma_from_int(v: int) {
    }
}

impl Number for u32 {
    fn zero() -> (z: Self) {
        zero_of::<u32>()
    }

    fn one() -> (o: Self) {
        one_of::<u32>()
    }

    fn from_i128(v: i128) -> (r: Option<Self>) {
        num_cast::<i128, u32>(v)
    }

    fn from_u128(v: u128) -> (r: Option<Self>) {
        num_cast::<u128, u32>(v)
    }

    fn to_i128(self) -> (r: Option<i128>) {
        num_cast::<u32, i128>(self)
    }

    fn to_u128(self) -> (r: Option<u128>) {
        num_cast::<u32, u128>(self)
    }

    fn apply(self, op: Op, rhs: Self) -> (r: Self) {
        match op {
            Op::Add => self + rhs,
            Op::Sub => self - rhs,
            Op::Mul => self * rhs,
            Op::Div => self / rhs,
            Op::Rem => self % rhs,
        }
    }

    fn half(self) -> (r: Self) {
        self / 2
    }

    fn less_than(self, rhs: Self) -> (r: bool) {
        self < rhs
    }

    fn scale(self, exp: i16) -> (r: Option<Self>) {
        match scale_u128(self as u128, exp) {
            Some(w) => num_cast::<u128, u32>(w),
            None => None,
        }
    }
}

impl Ranged for u64 {
    open spec fn value(self) -> int {
        self as int
    }

    open spec fn min_value() -> int {
        u64::MIN as int
    }

    open spec fn max_value() -> int {
        u64::MAX as int
    }

    open spec fn from_int(v: int) -> Self {
        v as u64
    }
}

impl Exact for u64 {
    proof fn lemma_range() {
    }

    proof fn lemma_value(self) {
    }

    proof fn lemma_from_int(v: int) {
    }
}

impl Number for u64 {
    fn zero() -> (z: Self) {
        zero_of::<u64>()
    }

    fn one() -> (o: Self) {
        one_of::<u64>()
    }

    fn from_i128(v: i128) -> (r: Option<Self>) {
        num_cast::<i128, u64>(v)
    }

    fn from_u128(v: u128) -> (r: Option<Self>) {
        num_cast::<u128, u64>(v)
    }

    fn to_i128(self) -> (r: Option<i128>) {
        num_cast::<u64, i128>(self)
    }

    fn to_u128(self) -> (r: Option<u128>) {
        num_cast::<u64, u128>(self)
    }

    fn apply(self, op: Op, rhs: Self) -> (r: Self) {
        match op {
            Op::Add => self + rhs,
            Op::Sub => self - rhs,
            Op::Mul => self * rhs,
            Op::Div => self / rhs,
            Op::Rem => self % rhs,
        }
    }

    fn half(self) -> (r: Self) {
        self / 2
    }

    fn less_than(self, rhs: Self) -> (r: bool) {
        self < rhs
    }

    fn scale(self, exp: i16) -> (r: Option<Self>) {
        match scale_u128(self as u128, exp) {
            Some(w) => num_cast::<u128, u64>(w),
            None => None,
        }
    }
}

impl Ranged for u128 {
    open spec fn value(self) -> int {
        self as int
    }

    open spec fn min_value() -> int {
        u128::MIN as int
    }

    open spec fn max_value() -> int {
        u128::MAX as int
    }

    open spec fn from_int(v: int) -> Self {
        v as u128
    }
}

impl Exact for u128 {
    proof fn lemma_range() {
    }

    proof fn lemma_value(self) {
    }

    proof fn lemma_from_int(v: int) {
    }
}

impl Number for u128 {
    fn zero() -> (z: Self) {
        zero_of::<u128>()
    }

    fn one() -> (o: Self) {
        one_of::<u128>()
    }

    fn from_i128(v: i128) -> (r: Option<Self>) {
        num_cast::<i128, u128>(v)
    }

    fn from_u128(v: u128) -> (r: Option<Self>) {
        num_cast::<u128, u128>(v)
    }

    fn to_i128(self) -> (r: Option<i128>) {
        num_cast::<u128, i128>(self)
    }

    fn to_u128(self) -> (r: Option<u128>) {
        num_cast::<u128, u128>(self)
    }

    fn apply(self, op: Op, rhs: Self) -> (r: Self) {
        match op {
            Op::Add => self + rhs,
            Op::Sub => self - rhs,
            Op::Mul => self * rhs,
            Op::Div => self / rhs,
            Op::Rem => self % rhs,
        }
    }

    fn half(self) -> (r: Self) {
        self / 2
    }

    fn less_than(self, rhs: Self) -> (r: bool) {
        self < rhs
    }

    fn scale(self, exp: i16) -> (r: Option<Self>) {
        match scale_u128(self as u128, exp) {
            Some(w) => num_cast::<u128, u128>(w),
            None => None,
        }
    }
}

impl Ranged for usize {
    open spec fn value(self) -> int {
        self as int
    }

    open spec fn min_value() -> int {
        usize::MIN as int
    }

    open spec fn max_value() -> int {
        usize::MAX as int
    }

    open spec fn from_int(v: int) -> Self {
        v as usize
    }
}

impl Exact for usize {
    proof fn lemma_range() {
    }

    proof fn lemma_value(self) {
    }

    proof fn lemma_from_int(v: int) {
    }
}

impl Number for usize {
    fn zero() -> (z: Self) {
        zero_of::<usize>()
    }

    fn one() -> (o: Self) {
        one_of::<usize>()
    }

    fn from_i128(v: i128) -> (r: Option<Self>) {
        num_cast::<i128, usize>(v)
    }

    fn from_u128(v: u128) -> (r: Option<Self>) {
        num_cast::<u128, usize>(v)
    }

    fn to_i128(self) -> (r: Option<i128>) {
        num_cast::<usize, i128>(self)
    }

    fn to_u128(self) -> (r: Option<u128>) {
        num_cast::<usize, u128>(self)
    }

    fn apply(self, op: Op, rhs: Self) -> (r: Self) {
        match op {
            Op::Add => self + rhs,
            Op::Sub => self - rhs,
            Op::Mul => self * rhs,
            Op::Div => self / rhs,
            Op::Rem => self % rhs,
        }
    }

    fn half(self) -> (r: Self) {
        self / 2
    }

    fn less_than(self, rhs: Self) -> (r: bool) {
        self < rhs
    }

    fn scale(self, exp: i16) -> (r: Option<Self>) {
        match scale_u128(self as u128, exp) {
            Some(w) => num_cast::<u128, usize>(w),
            None => None,
        }
    }
}

} // verus!
