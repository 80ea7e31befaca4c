//! Sums of a length and a percentage, and how they are blended.

use vstd::prelude::*;
use style_traits::values::specified::AllowedNumericType;
use crate::animate::Animate;
use crate::length::Length;
use crate::number::blend_number;
use crate::percentage::Percentage;
use crate::procedure::Procedure;

verus! {

/// The range markers of `style_traits`, with their variants: `All`,
/// `NonNegative`, `AtLeastOne` and `ZeroToOne`.
#[verifier::external_type_specification]
pub struct ExAllowedNumericType(AllowedNumericType);

/// A length plus a percentage, as `calc()` gives it. The length is always
/// there (it is zero where none was written); the percentage is there only
/// where one was written. `clamping_mode` names the range that the value is
/// to be brought into when it is used; the value as held need not lie in it.
#[derive(Clone, Copy, Debug, PartialEq, Eq)]
pub struct LengthPercentage {
    pub length: Length,
    pub percentage: Option<Percentage>,
    pub clamping_mode: AllowedNumericType,
}

impl LengthPercentage {
    /// The sum of `length` and, where there is one, `percentage`, marked with
    /// `clamping_mode`.
    pub fn new_calc(
        length: Length,
        percentage: Option<Percentage>,
        clamping_mode: AllowedNumericType,
    ) -> (value: LengthPercentage)
        ensures
            value == (LengthPercentage { length, percentage, clamping_mode }),
    {
        LengthPercentage { length, percentage, clamping_mode }
    }

    /// `length` alone, with no percentage and no range to be brought into.
    pub fn new_length(length: Length) -> (value: LengthPercentage)
        ensures
            value == (LengthPercentage {
                length,
                percentage: None,
                clamping_mode: AllowedNumericType::All,
            }),
    {
        LengthPercentage { length, percentage: None, clamping_mode: AllowedNumericType::All }
    }

    /// `percentage` alone: its length is zero. No range to be brought into.
    pub fn new_percentage(percentage: Percentage) -> (value: LengthPercentage)
        ensures
            value == (LengthPercentage {
                length: Length { units: 0 },
                percentage: Some(percentage),
                clamping_mode: AllowedNumericType::All,
            }),
    {
        LengthPercentage {
            length: Length::zero(),
            percentage: Some(percentage),
            clamping_mode: AllowedNumericType::All,
        }
    }

    /// The length of this sum, as it is, whatever `clamping_mode` says.
    pub fn unclamped_length(&self) -> (length: Length)
        ensures
            length == self.length,
    {
        self.length
    }

    /// The percentage of this sum as it was written: `None` where none was.
    pub fn specified_percentage(&self) -> (percentage: Option<Percentage>)
        ensures
            percentage == self.percentage,
    {
        self.percentage
    }

    /// The range that this value is to be brought into when it is used.
    pub fn clamping_mode(&self) -> (clamping_mode: AllowedNumericType)
        ensures
            clamping_mode == self.clamping_mode,
    {
        self.clamping_mode
    }
}

/// The percentage that stands for `percentage` in a blend: itself, or 0%
/// where there is none.
pub open spec fn percentage_or_zero(percentage: Option<Percentage>) -> Percentage {
    match percentage {
        Some(p) => p,
        None => Percentage { millionths: 0 },
    }
}

/// The percentage of a blend of two sums with the percentages `this` and
/// `other`: none where neither has one, else the blend of the two, with 0%
/// in the place of a missing one.
pub open spec fn blend_percentage_half(
    this: Option<Percentage>,
    other: Option<Percentage>,
    procedure: Procedure,
) -> Option<Percentage> {
    if this is None && other is None {
        None
    } else {
        Some(
            Percentage {
                millionths: blend_number(
                    percentage_or_zero(this).millionths,
                    percentage_or_zero(other).millionths,
                    procedure,
                ),
            },
        )
    }
}

/// Blends the percentages of two sums. Where neither sum has a percentage,
/// neither has the result, and nothing is blended. Where one has, the other
/// counts as 0%.
pub fn animate_percentage_half(
    this: Option<Percentage>,
    other: Option<Percentage>,
    procedure: Procedure,
) -> (result: Result<Option<Percentage>, ()>)
    ensures
        result == Ok::<Option<Percentage>, ()>(blend_percentage_half(this, other, procedure)),
{
    if this.is_none() && other.is_none() {
        return Ok(None);
    }
    let this = this.unwrap_or_default();
    let other = other.unwrap_or_default();
    Ok(Some(this.animate(&other, procedure)?))
}

impl Animate for LengthPercentage {
    open spec fn animate_spec(&self, other: &Self, procedure: Procedure) -> Result<Self, ()> {
        Ok(
            LengthPercentage {
                length: Length {
                    units: blend_number(self.length.units, other.length.units, procedure),
                },
                percentage: blend_percentage_half(self.percentage, other.percentage, procedure),
                clamping_mode: AllowedNumericType::All,
            },
        )
    }

    /// Blends two sums part by part, each part under the same procedure. The
    /// result is marked `All` whatever the marks of the two were: a value on
    /// its way from one to the other may leave the range that holds in the
    /// end, and whoever uses the result brings it back into that range.
    fn animate(&self, other: &Self, procedure: Procedure) -> (result: Result<Self, ()>) {
        let length = self.unclamped_length().animate(&other.unclamped_length(), procedure)?;
        let percentage = animate_percentage_half(
            self.specified_percentage(),
            other.specified_percentage(),
            procedure,
        )?;
        Ok(LengthPercentage::new_calc(length, percentage, AllowedNumericType::All))
    }
}

} // verus!
