//! The signed machine integers as lane types.
use vstd::prelude::*;
use crate::number::{lemma_trunc_div_minus_one, Exact, Number, Op, Ranged};
use crate::primitive::{num_cast, one_of, zero_of};
use crate::scale::scale_i128;

verus! {

impl Ranged for i8 {
    open spec fn value(self) -> int {
        self as int
    }

    open spec fn min_value() -> int {
        i8::MIN as int
    }

    open spec fn max_value() -> int {
        i8::MAX as int
    }

    open spec fn from_int(v: int) -> Self {
        v as i8
    }
}

impl Exact for i8 {
    proof fn lemma_range() {
    }

    proof fn lemma_value(self) {
    }

    proof fn lemma_from_int(v: int) {
    }
}

impl Number for i8 {
    fn zero() -> (z: Self) {
        zero_of::<i8>()
    }

    fn one() -> (o: Self) {
        one_of::<i8>()
    }

    fn from_i128(v: i128) -> (r: Option<Self>) {
        num_cast::<i128, i8>(v)
    }

    fn from_u128(v: u128) -> (r: Option<Self>) {
        num_cast::<u128, i8>(v)
    }

    fn to_i128(self) -> (r: Option<i128>) {
        num_cast::<i8, i128>(self)
    }

    fn to_u128(self) -> (r: Option<u128>) {
        num_cast::<i8, u128>(self)
    }

    fn apply(self, op: Op, rhs: Self) -> (r: Self) {
        proof {
            lemma_trunc_div_minus_one(self as int);
        }
        match op {
            Op::Add => self + rhs,
            Op::Sub => self - rhs,
            Op::Mul => self * rhs,
            Op::Div => self / rhs,
            Op::Rem => self % rhs,
        }
    }

    fn half(self) -> (r: Self) {
        self / 2
    }

    fn less_than(self, rhs: Self) -> (r: bool) {
        self < rhs
    }

    fn scale(self, exp: i16) -> (r: Option<Self>) {
        match scale_i128(self as i128, exp) {
            Some(w) => num_cast::<i128, i8>(w),
            None => None,
        }
    }
}

impl Ranged for i16 {
    open spec fn value(self) -> int {
        self as int
    }

    open spec fn min_value() -> int {
        i16::MIN as int
    }

    open spec fn max_value() -> int {
        i16::MAX as int
    }

    open spec fn from_int(v: int) -> Self {
        v as i16
    }
}

impl Exact for i16 {
    proof fn lemma_range() {
    }

    proof fn lemma_value(self) {
    }

    proof fn lemma_from_int(v: int) {
    }
}

impl Number for i16 {
    fn zero() -> (z: Self) {
        zero_of::<i16>()
    }

    fn one() -> (o: Self) {
        one_of::<i16>()
    }

    fn from_i128(v: i128) -> (r: Option<Self>) {
        num_cast::<i128, i16>(v)
    }

    fn from_u128(v: u128) -> (r: Option<Self>) {
        num_cast::<u128, i16>(v)
    }

    fn to_i128(self) -> (r: Option<i128>) {
        num_cast::<i16, i128>(self)
    }

    fn to_u128(self) -> (r: Option<u128>) {
        num_cast::<i16, u128>(self)
    }

    fn apply(self, op: Op, rhs: Self) -> (r: Self) {
        proof {
            lemma_trunc_div_minus_one(self as int);
        }
        match op {
            Op::Add => self + rhs,
            Op::Sub => self - rhs,
            Op::Mul => self * rhs,
            Op::Div => self / rhs,
            Op::Rem => self % rhs,
        }
    }

    fn half(self) -> (r: Self) {
        self / 2
    }

    fn less_than(self, rhs: Self) -> (r: bool) {
        self < rhs
    }

    fn scale(self, exp: i16) -> (r: Option<Self>) {
        match scale_i128(self as i128, exp) {
            Some(w) => num_cast::<i128, i16>(w),
            None => None,
        }
    }
}

impl Ranged for i32 {
    open spec fn value(self) -> int {
        self as int
    }

    open spec fn min_value() -> int {
        i32::MIN as int
    }

    open spec fn max_value() -> int {
        i32::MAX as int
    }

    open spec fn from_int(v: int) -> Self {
        v as i32
    }
}

impl Exact for i32 {
    proof fn lemma_range() {
    }

    proof fn lemma_value(self) {
    }

    proof fn lemma_from_int(v: int) {
    }
}

impl Number for i32 {
    fn zero() -> (z: Self) {
        zero_of::<i32>()
    }

    fn one() -> (o: Self) {
        one_of::<i32>()
    }

    fn from_i128(v: i128) -> (r: Option<Self>) {
        num_cast::<i128, i32>(v)
    }

    fn from_u128(v: u128) -> (r: Option<Self>) {
        num_cast::<u128, i32>(v)
    }

    fn to_i128(self) -> (r: Option<i128>) {
        num_cast::<i32, i128>(self)
    }

    fn to_u128(self) -> (r: Option<u128>) {
        num_cast::<i32, u128>(self)
    }

    fn apply(self, op: Op, rhs: Self) -> (r: Self) {
        proof {
            lemma_trunc_div_minus_one(self as int);
        }
        match op {
            Op::Add => self + rhs,
            Op::Sub => self - rhs,
            Op::Mul => self * rhs,
            Op::Div => self / rhs,
            Op::Rem => self % rhs,
        }
    }

    fn half(self) -> (r: Self) {
        self / 2
    }

    fn less_than(self, rhs: Self) -> (r: bool) {
        self < rhs
    }

    fn scale(self, exp: i16) -> (r: Option<Self>) {
        match scale_i128(self as i128, exp) {
            Some(w) => num_cast::<i128, i32>(w),
            None => None,
        }
    }
}

impl Ranged for i64 {
    open spec fn value(self) -> int {
        self as int
    }

    open spec fn min_value() -> int {
        i64::MIN as int
    }

    open spec fn max_value() -> int {
        i64::MAX as int
    }

    open spec fn from_int(v: int) -> Self {
        v as i64
    }
}

impl Exact for i64 {
    proof fn lemma_range() {
    }

    proof fn lemma_value(self) {
    }

    proof fn lemma_from_int(v: int) {
    }
}

impl Number for i64 {
    fn zero() -> (z: Self) {
        zero_of::<i64>()
    }

    fn one() -> (o: Self) {
        one_of::<i64>()
    }

    fn from_i128(v: i128) -> (r: Option<Self>) {
        num_cast::<i128, i64>(v)
    }

    fn from_u128(v: u128) -> (r: Option<Self>) {
        num_cast::<u128, i64>(v)
    }

    fn to_i128(self) -> (r: Option<i128>) {
        num_cast::<i64, i128>(self)
    }

    fn to_u128(self) -> (r: Option<u128>) {
        num_cast::<i64, u128>(self)
    }

    fn apply(self, op: Op, rhs: Self) -> (r: Self) {
        proof {
            lemma_trunc_div_minus_one(self as int);
        }
        match op {
            Op::Add => self + rhs,
            Op::Sub => self - rhs,
            Op::Mul => self * rhs,
            Op::Div => self / rhs,
            Op::Rem => self % rhs,
        }
    }

    fn half(self) -> (r: Self) {
        self / 2
    }

    fn less_than(self, rhs: Self) -> (r: bool) {
        self < rhs
    }

    fn scale(self, exp: i16) -> (r: Option<Self>) {
        match scale_i128(self as i128, exp) {
            Some(w) => num_cast::<i128, i64>(w),
            None => None,
        }
    }
}

impl Ranged for i128 {
    open spec fn value(self) -> int {
        self as int
    }

    open spec fn min_value() -> int {
        i128::MIN as int
    }

    open spec fn max_value() -> int {
        i128::MAX as int
    }

    open spec fn from_int(v: int) -> Self {
        v as i128
    }
}

impl Exact for i128 {
    proof fn lemma_range() {
    }

    proof fn lemma_value(self) {
    }

    proof fn lemma_from_int(v: int) {
    }
}

impl Number for i128 {
    fn zero() -> (z: Self) {
        zero_of::<i128>()
    }

    fn one() -> (o: Self) {
        one_of::<i128>()
    }

    fn from_i128(v: i128) -> (r: Option<Self>) {
        num_cast::<i128, i128>(v)
    }

    fn from_u128(v: u128) -> (r: Option<Self>) {
        num_cast::<u128, i128>(v)
    }

    fn to_i128(self) -> (r: Option<i128>) {
        num_cast::<i128, i128>(self)
    }

    fn to_u128(self) -> (r: Option<u128>) {
        num_cast::<i128, u128>(self)
    }

    fn apply(self, op: Op, rhs: Self) -> (r: Self) {
        proof {
            lemma_trunc_div_minus_one(self as int);
        }
        match op {
            Op::Add => self + rhs,
            Op::Sub => self - rhs,
            Op::Mul => self * rhs,
            Op::Div => self / rhs,
            Op::Rem => self % rhs,
        }
    }

    fn half(self) -> (r: Self) {
        self / 2
    }

    fn less_than(self, rhs: Self) -> (r: bool) {
        self < rhs
    }

    fn scale(self, exp: i16) -> (r: Option<Self>) {
        match scale_i128(self as i128, exp) {
            Some(w) => num_cast::<i128, i128>(w),
            None => None,
        }
    }
}

impl Ranged for isize {
    open spec fn value(self) -> int {
        self as int
    }

    open spec fn min_value() -> int {
        isize::MIN as int
    }

    open spec fn max_value() -> int {
        isize::MAX as int
    }

    open spec fn from_int(v: int) -> Self {
        v as isize
    }
}

impl Exact for isize {
    proof fn lemma_range() {
    }

    proof fn lemma_value(self) {
    }

    proof fn lemma_from_int(v: int) {
    }
}

impl Number for isize {
    fn zero() -> (z: Self) {
        zero_of::<isize>()
    }

    fn one() -> (o: Self) {
        one_of::<isize>()
    }

    fn from_i128(v: i128) -> (r: Option<Self>) {
        num_cast::<i128, isize>(v)
    }

    fn from_u128(v: u128) -> (r: Option<Self>) {
        num_cast::<u128, isize>(v)
    }

    fn to_i128(self) -> (r: Option<i128>) {
        num_cast::<isize, i128>(self)
    }

    fn to_u128(self) -> (r: Option<u128>) {
        num_cast::<isize, u128>(self)
    }

    fn apply(self, op: Op, rhs: Self) -> (r: Self) {
        proof {
            lemma_trunc_div_minus_one(self as int);
        }
        match op {
            Op::Add => self + rhs,
            Op::Sub => self - rhs,
            Op::Mul => self * rhs,
            Op::Div => self / rhs,
            Op::Rem => self % rhs,
        }
    }

    fn half(self) -> (r: Self) {
        self / 2
    }

    fn less_than(self, rhs: Self) -> (r: bool) {
        self < rhs
    }

    fn scale(self, exp: i16) -> (r: Option<Self>) {
        match scale_i128(self as i128, exp) {
            Some(w) => num_cast::<i128, isize>(w),
            None => None,
        }
    }
}

} // verus!
