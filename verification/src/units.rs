//! Plain integer-backed physical quantities used by the display state.
//!
//! A display range is a whole number of nautical miles and a brightness
//! level is a whole number of percent; both are carried as plain unsigned
//! integers so that contracts can speak about them directly.

use vstd::prelude::*;

verus! {

/// A physical distance, held as a whole number of nautical miles.
#[derive(Clone, Copy, Debug, PartialEq, Eq, Structural)]
pub struct Length {
    pub nautical_miles: u64,
}

impl Length {
    /// Builds a distance of `nautical_miles` nautical miles.
    pub fn new_nautical_miles(nautical_miles: u64) -> (r: Length)
        ensures
            r.nautical_miles == nautical_miles,
    {
        Length { nautical_miles }
    }

    /// The distance as a whole number of nautical miles.
    pub fn get_nautical_miles(&self) -> (r: u64)
        ensures
            r == self.nautical_miles,
    {
        self.nautical_miles
    }
}

/// A dimensionless ratio, held as a whole number of percent.
#[derive(Clone, Copy, Debug, PartialEq, Eq, Structural)]
pub struct Ratio {
    pub percent: u64,
}

impl Ratio {
    /// Builds a ratio of `percent` percent.
    pub fn new_percent(percent: u64) -> (r: Ratio)
        ensures
            r.percent == percent,
    {
        Ratio { percent }
    }

    /// The ratio as a whole number of percent.
    pub fn get_percent(&self) -> (r: u64)
        ensures
            r == self.percent,
    {
        self.percent
    }
}

} // verus!
