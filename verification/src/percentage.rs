//! Percentages and how they are blended.

use vstd::prelude::*;
use crate::animate::Animate;
use crate::number::blend_number;
use crate::procedure::Procedure;

verus! {

/// A share of some reference size, in millionths of it: `WHOLE` millionths
/// are 100%. It may be negative or more than 100%.
#[derive(Clone, Copy, Debug, PartialEq, Eq, Structural)]
pub struct Percentage {
    pub millionths: i64,
}

impl View for Percentage {
    type V = int;

    open spec fn view(&self) -> int {
        self.millionths as int
    }
}

impl Percentage {
    /// The percentage of `millionths` millionths.
    pub fn new(millionths: i64) -> (percentage: Percentage)
        ensures
            percentage@ == millionths,
    {
        Percentage { millionths }
    }

    /// 0%.
    pub fn zero() -> (percentage: Percentage)
        ensures
            percentage@ == 0,
    {
        Percentage { millionths: 0 }
    }

    /// The number of millionths in this percentage.
    pub fn millionths(&self) -> (millionths: i64)
        ensures
            millionths == self@,
    {
        self.millionths
    }
}

impl Default for Percentage {
    /// 0%: what a value without a percentage counts as when it is blended
    /// with one that has a percentage.
    fn default() -> (percentage: Percentage)
        ensures
            percentage@ == 0,
    {
        Percentage { millionths: 0 }
    }
}

impl Animate for Percentage {
    open spec fn animate_spec(&self, other: &Self, procedure: Procedure) -> Result<Self, ()> {
        Ok(Percentage { millionths: blend_number(self.millionths, other.millionths, procedure) })
    }

    /// Blends two percentages by blending their counts of millionths. The
    /// result is never an error.
    fn animate(&self, other: &Self, procedure: Procedure) -> (result: Result<Self, ()>) {
        Ok(Percentage { millionths: self.millionths.animate(&other.millionths, procedure)? })
    }
}

} // verus!
