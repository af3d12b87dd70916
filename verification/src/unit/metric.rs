//! The metric prefixes of the meter. The reference unit, the meter itself,
//! is the absence of a unit.
use vstd::prelude::*;
use crate::unit::{BasePrefix, Unit};

verus! {

/// The yottameter: ten to the power 24 of a meter.
#[derive(Copy, Clone, Debug)]
pub struct Yottameter;

/// The symbol of the yottameter.
#[allow(non_camel_case_types)]
pub type Ym = Yottameter;

impl Default for Yottameter {
    fn default() -> (r: Self)
        ensures
            r == Yottameter,
    {
        Yottameter
    }
}

impl Unit for Yottameter {
    fn is_self_compatible(&self, rhs: &Self) -> (ok: bool) {
        true
    }
}

impl BasePrefix for Yottameter {
    open spec fn exponent() -> int {
        24
    }

    fn base_exponent() -> (e: i8) {
        24
    }
}

/// The zettameter: ten to the power 21 of a meter.
#[derive(Copy, Clone, Debug)]
pub struct Zettameter;

/// The symbol of the zettameter.
#[allow(non_camel_case_types)]
pub type Zm = Zettameter;

impl Default for Zettameter {
    fn default() -> (r: Self)
        ensures
            r == Zettameter,
    {
        Zettameter
    }
}

impl Unit for Zettameter {
    fn is_self_compatible(&self, rhs: &Self) -> (ok: bool) {
        true
    }
}

impl BasePrefix for Zettameter {
    open spec fn exponent() -> int {
        21
    }

    fn base_exponent() -> (e: i8) {
        21
    }
}

/// The exameter: ten to the power 18 of a meter.
#[derive(Copy, Clone, Debug)]
pub struct Exameter;

/// The symbol of the exameter.
#[allow(non_camel_case_types)]
pub type Em = Exameter;

impl Default for Exameter {
    fn default() -> (r: Self)
        ensures
            r == Exameter,
    {
        Exameter
    }
}

impl Unit for Exameter {
    fn is_self_compatible(&self, rhs: &Self) -> (ok: bool) {
        true
    }
}

impl BasePrefix for Exameter {
    open spec fn exponent() -> int {
        18
    }

    fn base_exponent() -> (e: i8) {
        18
    }
}

/// The petameter: ten to the power 15 of a meter.
#[derive(Copy, Clone, Debug)]
pub struct Petameter;

/// The symbol of the petameter.
#[allow(non_camel_case_types)]
pub type Pm = Petameter;

impl Default for Petameter {
    fn default() -> (r: Self)
        ensures
            r == Petameter,
    {
        Petameter
    }
}

impl Unit for Petameter {
    fn is_self_compatible(&self, rhs: &Self) -> (ok: bool) {
        true
    }
}

impl BasePrefix for Petameter {
    open spec fn exponent() -> int {
        15
    }

    fn base_exponent() -> (e: i8) {
        15
    }
}

/// The terameter: ten to the power 12 of a meter.
#[derive(Copy, Clone, Debug)]
pub struct Terameter;

/// The symbol of the terameter.
#[allow(non_camel_case_types)]
pub type Tm = Terameter;

impl Default for Terameter {
    fn default() -> (r: Self)
        ensures
            r == Terameter,
    {
        Terameter
    }
}

impl Unit for Terameter {
    fn is_self_compatible(&self, rhs: &Self) -> (ok: bool) {
        true
    }
}

impl BasePrefix for Terameter {
    open spec fn exponent() -> int {
        12
    }

    fn base_exponent() -> (e: i8) {
        12
    }
}

/// The gigameter: ten to the power 9 of a meter.
#[derive(Copy, Clone, Debug)]
pub struct Gigameter;

/// The symbol of the gigameter.
#[allow(non_camel_case_types)]
pub type Gm = Gigameter;

impl Default for Gigameter {
    fn default() -> (r: Self)
        ensures
            r == Gigameter,
    {
        Gigameter
    }
}

impl Unit for Gigameter {
    fn is_self_compatible(&self, rhs: &Self) -> (ok: bool) {
        true
    }
}

impl BasePrefix for Gigameter {
    open spec fn exponent() -> int {
        9
    }

    fn base_exponent() -> (e: i8) {
        9
    }
}

/// The megameter: ten to the power 6 of a meter.
#[derive(Copy, Clone, Debug)]
pub struct Megameter;

/// The symbol of the megameter.
#[allow(non_camel_case_types)]
pub type Mm = Megameter;

impl Default for Megameter {
    fn default() -> (r: Self)
        ensures
            r == Megameter,
    {
        Megameter
    }
}

impl Unit for Megameter {
    fn is_self_compatible(&self, rhs: &Self) -> (ok: bool) {
        true
    }
}

impl BasePrefix for Megameter {
    open spec fn exponent() -> int {
        6
    }

    fn base_exponent() -> (e: i8) {
        6
    }
}

/// The kilometer: ten to the power 3 of a meter.
#[derive(Copy, Clone, Debug)]
pub struct Kilometer;

/// The symbol of the kilometer.
#[allow(non_camel_case_types)]
pub type km = Kilometer;

impl Default for Kilometer {
    fn default() -> (r: Self)
        ensures
            r == Kilometer,
    {
        Kilometer
    }
}

impl Unit for Kilometer {
    fn is_self_compatible(&self, rhs: &Self) -> (ok: bool) {
        true
    }
}

impl BasePrefix for Kilometer {
    open spec fn exponent() -> int {
        3
    }

    fn base_exponent() -> (e: i8) {
        3
    }
}

/// The hectometer: ten to the power 2 of a meter.
#[derive(Copy, Clone, Debug)]
pub struct Hectometer;

/// The symbol of the hectometer.
#[allow(non_camel_case_types)]
pub type hm = Hectometer;

impl Default for Hectometer {
    fn default() -> (r: Self)
        ensures
            r == Hectometer,
    {
        Hectometer
    }
}

impl Unit for Hectometer {
    fn is_self_compatible(&self, rhs: &Self) -> (ok: bool) {
        true
    }
}

impl BasePrefix for Hectometer {
    open spec fn exponent() -> int {
        2
    }

    fn base_exponent() -> (e: i8) {
        2
    }
}

/// The decameter: ten to the power 1 of a meter.
#[derive(Copy, Clone, Debug)]
pub struct Decameter;

/// The symbol of the decameter.
#[allow(non_camel_case_types)]
pub type dam = Decameter;

impl Default for Decameter {
    fn default() -> (r: Self)
        ensures
            r == Decameter,
    {
        Decameter
    }
}

impl Unit for Decameter {
    fn is_self_compatible(&self, rhs: &Self) -> (ok: bool) {
        true
    }
}

impl BasePrefix for Decameter {
    open spec fn exponent() -> int {
        1
    }

    fn base_exponent() -> (e: i8) {
        1
    }
}

/// The decimeter: ten to the power -1 of a meter.
#[derive(Copy, Clone, Debug)]
pub struct Decimeter;

/// The symbol of the decimeter.
#[allow(non_camel_case_types)]
pub type dm = Decimeter;

impl Default for Decimeter {
    fn default() -> (r: Self)
        ensures
            r == Decimeter,
    {
        Decimeter
    }
}

impl Unit for Decimeter {
    fn is_self_compatible(&self, rhs: &Self) -> (ok: bool) {
        true
    }
}

impl BasePrefix for Decimeter {
    open spec fn exponent() -> int {
        -1
    }

    fn base_exponent() -> (e: i8) {
        -1
    }
}

/// The centimeter: ten to the power -2 of a meter.
#[derive(Copy, Clone, Debug)]
pub struct Centimeter;

/// The symbol of the centimeter.
#[allow(non_camel_case_types)]
pub type cm = Centimeter;

impl Default for Centimeter {
    fn default() -> (r: Self)
        ensures
            r == Centimeter,
    {
        Centimeter
    }
}

impl Unit for Centimeter {
    fn is_self_compatible(&self, rhs: &Self) -> (ok: bool) {
        true
    }
}

impl BasePrefix for Centimeter {
    open spec fn exponent() -> int {
        -2
    }

    fn base_exponent() -> (e: i8) {
        -2
    }
}

/// The millimeter: ten to the power -3 of a meter.
#[derive(Copy, Clone, Debug)]
pub struct Millimeter;

/// The symbol of the millimeter.
#[allow(non_camel_case_types)]
pub type mm = Millimeter;

impl Default for Millimeter {
    fn default() -> (r: Self)
        ensures
            r == Millimeter,
    {
        Millimeter
    }
}

impl Unit for Millimeter {
    fn is_self_compatible(&self, rhs: &Self) -> (ok: bool) {
        true
    }
}

impl BasePrefix for Millimeter {
    open spec fn exponent() -> int {
        -3
    }

    fn base_exponent() -> (e: i8) {
        -3
    }
}

/// The micrometer: ten to the power -6 of a meter.
#[derive(Copy, Clone, Debug)]
pub struct Micrometer;

/// The symbol of the micrometer.
#[allow(non_camel_case_types)]
pub type um = Micrometer;

impl Default for Micrometer {
    fn default() -> (r: Self)
        ensures
            r == Micrometer,
    {
        Micrometer
    }
}

impl Unit for Micrometer {
    fn is_self_compatible(&self, rhs: &Self) -> (ok: bool) {
        true
    }
}

impl BasePrefix for Micrometer {
    open spec fn exponent() -> int {
        -6
    }

    fn base_exponent() -> (e: i8) {
        -6
    }
}

/// The nanometer: ten to the power -9 of a meter.
#[derive(Copy, Clone, Debug)]
pub struct Nanometer;

/// The symbol of the nanometer.
#[allow(non_camel_case_types)]
pub type nm = Nanometer;

impl Default for Nanometer {
    fn default() -> (r: Self)
        ensures
            r == Nanometer,
    {
        Nanometer
    }
}

impl Unit for Nanometer {
    fn is_self_compatible(&self, rhs: &Self) -> (ok: bool) {
        true
    }
}

impl BasePrefix for Nanometer {
    open spec fn exponent() -> int {
        -9
    }

    fn base_exponent() -> (e: i8) {
        -9
    }
}

/// The picometer: ten to the power -12 of a meter.
#[derive(Copy, Clone, Debug)]
pub struct Picometer;

/// The symbol of the picometer.
#[allow(non_camel_case_types)]
pub type pm = Picometer;

impl Default for Picometer {
    fn default() -> (r: Self)
        ensures
            r == Picometer,
    {
        Picometer
    }
}

impl Unit for Picometer {
    fn is_self_compatible(&self, rhs: &Self) -> (ok: bool) {
        true
    }
}

impl BasePrefix for Picometer {
    open spec fn exponent() -> int {
        -12
    }

    fn base_exponent() -> (e: i8) {
        -12
    }
}

/// The femtometer: ten to the power -15 of a meter.
#[derive(Copy, Clone, Debug)]
pub struct Femtometer;

/// The symbol of the femtometer.
#[allow(non_camel_case_types)]
pub type fm = Femtometer;

impl Default for Femtometer {
    fn default() -> (r: Self)
        ensures
            r == Femtometer,
    {
        Femtometer
    }
}

impl Unit for Femtometer {
    fn is_self_compatible(&self, rhs: &Self) -> (ok: bool) {
        true
    }
}

impl BasePrefix for Femtometer {
    open spec fn exponent() -> int {
        -15
    }

    fn base_exponent() -> (e: i8) {
        -15
    }
}

/// The attometer: ten to the power -18 of a meter.
#[derive(Copy, Clone, Debug)]
pub struct Attometer;

/// The symbol of the attometer.
#[allow(non_camel_case_types)]
pub type am = Attometer;

impl Default for Attometer {
    fn default() -> (r: Self)
        ensures
            r == Attometer,
    {
        Attometer
    }
}

impl Unit for Attometer {
    fn is_self_compatible(&self, rhs: &Self) -> (ok: bool) {
        true
    }
}

impl BasePrefix for Attometer {
    open spec fn exponent() -> int {
        -18
    }

    fn base_exponent() -> (e: i8) {
        -18
    }
}

/// The zeptometer: ten to the power -21 of a meter.
#[derive(Copy, Clone, Debug)]
pub struct Zeptometer;

/// The symbol of the zeptometer.
#[allow(non_camel_case_types)]
pub type zm = Zeptometer;

impl Default for Zeptometer {
    fn default() -> (r: Self)
        ensures
            r == Zeptometer,
    {
        Zeptometer
    }
}

impl Unit for Zeptometer {
    fn is_self_compatible(&self, rhs: &Self) -> (ok: bool) {
        true
    }
}

impl BasePrefix for Zeptometer {
    open spec fn exponent() -> int {
        -21
    }

    fn base_exponent() -> (e: i8) {
        -21
    }
}

/// The yoctometer: ten to the power -24 of a meter.
#[derive(Copy, Clone, Debug)]
pub struct Yoctometer;

/// The symbol of the yoctometer.
#[allow(non_camel_case_types)]
pub type ym = Yoctometer;

impl Default for Yoctometer {
    fn default() -> (r: Self)
        ensures
            r == Yoctometer,
    {
        Yoctometer
    }
}

impl Unit for Yoctometer {
    fn is_self_compatible(&self, rhs: &Self) -> (ok: bool) {
        true
    }
}

impl BasePrefix for Yoctometer {
    open spec fn exponent() -> int {
        -24
    }

    fn base_exponent() -> (e: i8) {
        -24
    }
}

} // verus!
