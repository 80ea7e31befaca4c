//! Lengths and how they are blended.

use vstd::prelude::*;
use crate::animate::Animate;
use crate::number::blend_number;
use crate::procedure::Procedure;

verus! {

/// An absolute length: a whole number of the one unit in which all lengths
/// are counted. It may be negative.
#[derive(Clone, Copy, Debug, PartialEq, Eq, Structural)]
pub struct Length {
    pub units: i64,
}

impl View for Length {
    type V = int;

    open spec fn view(&self) -> int {
        self.units as int
    }
}

impl Length {
    /// The length of `units` units.
    pub fn new(units: i64) -> (length: Length)
        ensures
            length@ == units,
    {
        Length { units }
    }

    /// The length of nothing.
    pub fn zero() -> (length: Length)
        ensures
            length@ == 0,
    {
        Length { units: 0 }
    }

    /// The number of units in this length.
    pub fn units(&self) -> (units: i64)
        ensures
            units == self@,
    {
        self.units
    }
}

impl Animate for Length {
    open spec fn animate_spec(&self, other: &Self, procedure: Procedure) -> Result<Self, ()> {
        Ok(Length { units: blend_number(self.units, other.units, procedure) })
    }

    /// Blends two lengths by blending their counts of units. Nothing is
    /// clamped on the way but what an `i64` cannot hold, and the result is
    /// never an error.
    fn animate(&self, other: &Self, procedure: Procedure) -> (result: Result<Self, ()>) {
        Ok(Length { units: self.units.animate(&other.units, procedure)? })
    }
}

} // verus!
