//! The carriers to and from the plain shapes of their lanes.
use vstd::prelude::*;
use vstd::std_specs::convert::FromSpecImpl;
use crate::number::Number;
use crate::types::value::Value;
use crate::types::vec2::Vec2;
use crate::unit::Unit;

verus! {

impl<N: Number, U: Unit + Copy + Default> From<[N; 2]> for Vec2<N, U> {
    /// The vector of the lanes `pair[0]` and `pair[1]`, with the default
    /// tag of `U`.
    fn from(pair: [N; 2]) -> (r: Self)
        ensures
            r.x == pair[0],
            r.y == pair[1],
            call_ensures(U::default, (), r.unit),
    {
        Vec2 { x: pair[0], y: pair[1], unit: U::default() }
    }
}

/// The tag of the result is whatever `U::default` gives, which no
/// expression names: the conversion is stated on `from` itself.
impl<N: Number, U: Unit + Copy + Default> FromSpecImpl<[N; 2]> for Vec2<N, U> {
    open spec fn obeys_from_spec() -> bool {
        false
    }

    open spec fn from_spec(pair: [N; 2]) -> Self {
        arbitrary()
    }
}

impl<N: Number, U: Unit + Copy + Default> From<(N, N)> for Vec2<N, U> {
    /// The vector of the lanes `pair.0` and `pair.1`, with the default tag
    /// of `U`.
    fn from(pair: (N, N)) -> (r: Self)
        ensures
            r.x == pair.0,
            r.y == pair.1,
            call_ensures(U::default, (), r.unit),
    {
        Vec2 { x: pair.0, y: pair.1, unit: U::default() }
    }
}

/// The tag of the result is whatever `U::default` gives, which no
/// expression names: the conversion is stated on `from` itself.
impl<N: Number, U: Unit + Copy + Default> FromSpecImpl<(N, N)> for Vec2<N, U> {
    open spec fn obeys_from_spec() -> bool {
        false
    }

    open spec fn from_spec(pair: (N, N)) -> Self {
        arbitrary()
    }
}

impl<N: Number, U: Unit + Copy> From<Vec2<N, U>> for (N, N) {
    /// The lanes of the vector, `x` first. The unit is dropped.
    fn from(vec: Vec2<N, U>) -> (r: Self) {
        (vec.x, vec.y)
    }
}

impl<N: Number, U: Unit + Copy> FromSpecImpl<Vec2<N, U>> for (N, N) {
    open spec fn obeys_from_spec() -> bool {
        true
    }

    open spec fn from_spec(vec: Vec2<N, U>) -> Self {
        (vec.x, vec.y)
    }
}

impl<N: Number, U: Unit + Copy> From<Vec2<N, U>> for [N; 2] {
    /// The lanes of the vector, `x` first. The unit is dropped.
    fn from(vec: Vec2<N, U>) -> (r: Self)
        ensures
            r[0] == vec.x,
            r[1] == vec.y,
    {
        [vec.x, vec.y]
    }
}

impl<N: Number, U: Unit + Copy> FromSpecImpl<Vec2<N, U>> for [N; 2] {
    open spec fn obeys_from_spec() -> bool {
        true
    }

    open spec fn from_spec(vec: Vec2<N, U>) -> Self {
        [vec.x, vec.y]
    }
}

impl<N: Number, U: Unit + Copy> core::ops::Deref for Value<N, U> {
    type Target = N;

    /// The bare number.
    fn deref(&self) -> (r: &N)
        ensures
            *r == self.value,
    {
        &self.value
    }
}

} // verus!
