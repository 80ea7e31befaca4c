//! Blending of lengths, percentages and their sums for animation.
//!
//! Two values of one kind and a [`Procedure`] give a value of that kind: a
//! point on the way from the first to the second, their sum, or the first
//! with the second added a number of times. A sum of a length and a
//! percentage is blended part by part, and the result is left unclamped: to
//! bring it into the range of the property that it is for is up to whoever
//! uses it.
//!
//! All quantities are whole numbers: lengths are counted in one fixed unit,
//! percentages and progress in millionths. A result that falls between two
//! whole numbers is rounded to the nearest, a half upwards, and one that an
//! `i64` cannot hold is the nearest value that it can hold. Every result is
//! thereby exactly determined by the two values and the procedure.

pub mod animate;
pub mod length;
pub mod length_percentage;
pub mod number;
pub mod percentage;
pub mod procedure;
pub mod theorems;

pub use crate::animate::Animate;
pub use crate::length::Length;
pub use crate::length_percentage::{animate_percentage_half, LengthPercentage};
pub use crate::percentage::Percentage;
pub use crate::procedure::{Procedure, Progress, WHOLE};
