//! The blend operation that a caller asks for, and its parameters.

use vstd::prelude::*;

verus! {

/// The count that stands for one whole. Progress and percentages are kept as
/// whole numbers of millionths, so that `WHOLE` is a progress of 1 and a
/// percentage of 100%.
pub const WHOLE: i64 = 1_000_000;

/// How far an interpolation has come, in millionths of the way from the first
/// value to the second. Easing may overshoot, so progress is not confined to
/// the span from 0 to `WHOLE`.
#[derive(Clone, Copy, Debug, PartialEq, Eq, Structural)]
pub struct Progress {
    pub millionths: i32,
}

impl View for Progress {
    type V = int;

    open spec fn view(&self) -> int {
        self.millionths as int
    }
}

impl Progress {
    /// The progress that is `millionths` millionths of the way.
    pub fn from_millionths(millionths: i32) -> (progress: Progress)
        ensures
            progress@ == millionths,
    {
        Progress { millionths }
    }

    /// The progress as a count of millionths.
    pub fn millionths(&self) -> (millionths: i32)
        ensures
            millionths == self@,
    {
        self.millionths
    }

    /// The progress that is left: one whole minus this progress. It is `None`
    /// exactly when that difference is too large to be held.
    pub fn complement(&self) -> (rest: Option<Progress>)
        ensures
            WHOLE - self@ <= i32::MAX ==> rest == Some(Progress { millionths: (WHOLE - self@) as i32 }),
            WHOLE - self@ > i32::MAX ==> rest is None,
    {
        let rest: i64 = WHOLE - self.millionths as i64;
        if rest <= i32::MAX as i64 {
            Some(Progress { millionths: rest as i32 })
        } else {
            None
        }
    }
}

/// What to do with two values of one kind. A procedure is handed on unchanged
/// to every part of a value that is blended.
#[derive(Clone, Copy, Debug, PartialEq, Eq, Structural)]
pub enum Procedure {
    /// Go `progress` of the way from the first value to the second:
    /// `this * (1 - progress) + other * progress`.
    Interpolate { progress: Progress },
    /// Stack the second value on the first: `this + other`.
    Add,
    /// Add the second value `count` times to the first: `this + other * count`.
    Accumulate { count: u64 },
}

} // verus!
