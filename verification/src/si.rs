//! Physical quantities as exact fixed-point counts.
//!
//! Each quantity is a whole number of a unit small enough that both the metric
//! and the customary display units are whole multiples of it, so converting
//! between what is stored and what is shown never needs a fraction.
use vstd::prelude::*;

verus! {

/// Units of mass in one kilogram: a unit is a tenth of a microgram.
pub const UNITS_PER_KILOGRAM: u64 = 10_000_000_000;

/// Units of mass in one pound (0.45359237 kg).
pub const UNITS_PER_POUND: u64 = 4_535_923_700;

/// Units of length in one metre: a unit is ten micrometres.
pub const UNITS_PER_METER: u64 = 100_000;

/// Units of length in one mile (1609.344 m).
pub const UNITS_PER_MILE: u64 = 160_934_400;

/// Units of time in one second: a unit is a millisecond.
pub const UNITS_PER_SECOND: u64 = 1_000;

/// A mass, in units of `10^-10` kg.
#[derive(Clone, Copy, Debug, PartialEq, Eq, Structural)]
pub struct Kilogram {
    pub units: u64,
}

/// A length, in units of `10^-5` m.
#[derive(Clone, Copy, Debug, PartialEq, Eq, Structural)]
pub struct Meter {
    pub units: u64,
}

/// A span of time, in milliseconds.
#[derive(Clone, Copy, Debug, PartialEq, Eq, Structural)]
pub struct Second {
    pub units: u64,
}

impl Kilogram {
    /// The mass of `units` tenths of a microgram.
    pub fn new(units: u64) -> (m: Kilogram)
        ensures
            m.units == units,
    {
        Kilogram { units }
    }

    /// A whole number of kilograms.
    pub fn from_kilograms(n: u16) -> (m: Kilogram)
        ensures
            m.units == n * UNITS_PER_KILOGRAM,
    {
        Kilogram { units: n as u64 * UNITS_PER_KILOGRAM }
    }

    /// A whole number of pounds.
    pub fn from_pounds(n: u16) -> (m: Kilogram)
        ensures
            m.units == n * UNITS_PER_POUND,
    {
        Kilogram { units: n as u64 * UNITS_PER_POUND }
    }
}

impl Meter {
    /// The length of `units` times ten micrometres.
    pub fn new(units: u64) -> (d: Meter)
        ensures
            d.units == units,
    {
        Meter { units }
    }

    /// A whole number of metres.
    pub fn from_meters(n: u32) -> (d: Meter)
        ensures
            d.units == n * UNITS_PER_METER,
    {
        Meter { units: n as u64 * UNITS_PER_METER }
    }

    /// A whole number of miles.
    pub fn from_miles(n: u32) -> (d: Meter)
        ensures
            d.units == n * UNITS_PER_MILE,
    {
        Meter { units: n as u64 * UNITS_PER_MILE }
    }
}

impl Second {
    /// The span of `units` milliseconds.
    pub fn new(units: u64) -> (t: Second)
        ensures
            t.units == units,
    {
        Second { units }
    }

    /// A whole number of seconds.
    pub fn from_seconds(n: u32) -> (t: Second)
        ensures
            t.units == n * UNITS_PER_SECOND,
    {
        Second { units: n as u64 * UNITS_PER_SECOND }
    }
}

} // verus!
