//! Blending of plain whole numbers: the arithmetic that lengths and
//! percentages share.

use vstd::prelude::*;
use crate::animate::Animate;
use crate::procedure::{Procedure, WHOLE};

verus! {

/// `numerator / denominator`, rounded to the nearest whole number, a half
/// rounded up.
pub open spec fn round_half_up(numerator: int, denominator: int) -> int
    recommends
        denominator > 0,
{
    (2 * numerator + denominator) / (2 * denominator)
}

/// `this * (1 - progress) + other * progress`, in millionths: progress is a
/// count of millionths, so the sum is `WHOLE` times the value that lies
/// `progress` of the way from `this` to `other`.
pub open spec fn weighted_sum(this: int, other: int, progress: int) -> int {
    this * (WHOLE - progress) + other * progress
}

/// The value `progress` millionths of the way from `this` to `other`:
/// `this * (1 - progress) + other * progress`, rounded to the nearest whole
/// number.
pub open spec fn interpolate(this: int, other: int, progress: int) -> int {
    round_half_up(weighted_sum(this, other, progress), WHOLE as int)
}

/// Whether the exact value `progress` of the way from `this` to `other` lies
/// no more than half a unit outside of what an `i64` holds. Where it does
/// not, the interpolated value is cut off at the nearest end of that range
/// and is further than half a unit from the exact one.
pub open spec fn interpolation_fits(this: int, other: int, progress: int) -> bool {
    WHOLE * i64::MIN - WHOLE / 2 <= weighted_sum(this, other, progress) <= WHOLE * i64::MAX
        + WHOLE / 2
}

/// What `procedure` makes of `this` and `other`, before it is brought back
/// into the range of the type that holds it.
pub open spec fn blend(this: int, other: int, procedure: Procedure) -> int {
    match procedure {
        Procedure::Interpolate { progress } => interpolate(this, other, progress@),
        Procedure::Add => this + other,
        Procedure::Accumulate { count } => this + other * count,
    }
}

/// `value` where an `i64` can hold it, else the nearest value that an `i64`
/// can hold.
pub open spec fn saturate(value: int) -> int {
    if value < i64::MIN {
        i64::MIN as int
    } else if value > i64::MAX {
        i64::MAX as int
    } else {
        value
    }
}

/// The number that blending `this` with `other` gives.
pub open spec fn blend_number(this: i64, other: i64, procedure: Procedure) -> i64 {
    saturate(blend(this as int, other as int, procedure)) as i64
}

/// Brings `value` into the range of an `i64`.
fn saturate_to_i64(value: i128) -> (result: i64)
    ensures
        result == saturate(value as int),
{
    if value < i64::MIN as i128 {
        i64::MIN
    } else if value > i64::MAX as i128 {
        i64::MAX
    } else {
        value as i64
    }
}

/// Divides a count of millionths by `WHOLE`, rounding to the nearest whole
/// number, a half rounded up.
fn round_to_whole(numerator: i128) -> (rounded: i128)
    requires
        -0x1_0000_0000_0000_0000_0000_0000 <= numerator <= 0x1_0000_0000_0000_0000_0000_0000,
    ensures
        rounded == round_half_up(numerator as int, WHOLE as int),
{
    let doubled: i128 = 2 * numerator + WHOLE as i128;
    let divisor: i128 = 2 * WHOLE as i128;
    if doubled >= 0 {
        doubled / divisor
    } else {
        // Division of a negative number rounds towards zero; rounding down is
        // wanted, so divide the mirrored number rounding up.
        let mirrored: i128 = (divisor - 1 - doubled) / divisor;
        -mirrored
    }
}

/// Rounding moves a value by half a unit at most: `WHOLE` times the rounded
/// quotient differs from the numerator by no more than half of `WHOLE`.
proof fn lemma_round_is_nearest(numerator: int)
    ensures
        -WHOLE < 2 * (WHOLE * round_half_up(numerator, WHOLE as int) - numerator) <= WHOLE,
{
    let doubled = 2 * numerator + 1_000_000;
    let rounded = doubled / 2_000_000;
    assert(round_half_up(numerator, WHOLE as int) == rounded);
    assert(2_000_000 * rounded <= doubled < 2_000_000 * rounded + 2_000_000);
}

/// A multiple of `WHOLE` rounds to the number that it is a multiple of.
proof fn lemma_round_of_multiple(value: int)
    ensures
        round_half_up(value * WHOLE, WHOLE as int) == value,
{
    let doubled = 2 * (value * 1_000_000) + 1_000_000;
    assert(round_half_up(value * WHOLE, WHOLE as int) == doubled / 2_000_000);
    assert(doubled == 2_000_000 * value + 1_000_000);
    assert(doubled / 2_000_000 == value);
}

/// Rounding keeps the order of two numerators.
proof fn lemma_round_is_monotonic(low: int, high: int)
    requires
        low <= high,
    ensures
        round_half_up(low, WHOLE as int) <= round_half_up(high, WHOLE as int),
{
    let a = 2 * low + 1_000_000;
    let b = 2 * high + 1_000_000;
    assert(round_half_up(low, WHOLE as int) == a / 2_000_000);
    assert(round_half_up(high, WHOLE as int) == b / 2_000_000);
    assert(a <= b);
    assert(a / 2_000_000 <= b / 2_000_000);
}

/// An interpolated number is no more than half a unit from the exact value
/// exactly where that value fits: `WHOLE` times the number then differs from
/// the weighted sum by no more than half of `WHOLE`.
pub proof fn lemma_interpolate_is_nearest(this: i64, other: i64, progress: int)
    ensures
        interpolation_fits(this as int, other as int, progress) <==> -WHOLE <= 2 * (WHOLE
            * saturate(interpolate(this as int, other as int, progress)) - weighted_sum(
            this as int,
            other as int,
            progress,
        )) <= WHOLE,
{
    lemma_round_is_nearest(weighted_sum(this as int, other as int, progress));
}

/// Between a value and itself lies that value, whatever the progress.
pub proof fn lemma_interpolate_same(value: int, progress: int)
    ensures
        interpolate(value, value, progress) == value,
{
    assert(weighted_sum(value, value, progress) == value * WHOLE) by (nonlinear_arith);
    lemma_round_of_multiple(value);
}

/// An interpolation starts at the first value and ends at the second.
pub proof fn lemma_interpolate_ends(this: int, other: int)
    ensures
        interpolate(this, other, 0) == this,
        interpolate(this, other, WHOLE as int) == other,
{
    assert(weighted_sum(this, other, 0) == this * WHOLE) by (nonlinear_arith);
    assert(weighted_sum(this, other, WHOLE as int) == other * WHOLE) by (nonlinear_arith);
    lemma_round_of_multiple(this);
    lemma_round_of_multiple(other);
}

/// Going `progress` of the way from `this` to `other` leads to the same
/// value as going the rest of the way from `other` to `this`.
pub proof fn lemma_interpolate_mirrored(this: int, other: int, progress: int)
    ensures
        interpolate(this, other, progress) == interpolate(other, this, WHOLE - progress),
{
    assert(weighted_sum(this, other, progress) == weighted_sum(other, this, WHOLE - progress))
        by (nonlinear_arith);
}

/// With a progress from 0 to one whole, the interpolated value lies between
/// the two values.
pub proof fn lemma_interpolate_between(this: int, other: int, progress: int)
    requires
        0 <= progress <= WHOLE,
    ensures
        this <= other ==> this <= interpolate(this, other, progress) <= other,
        other <= this ==> other <= interpolate(this, other, progress) <= this,
        this <= other ==> this * WHOLE <= weighted_sum(this, other, progress) <= other * WHOLE,
        other <= this ==> other * WHOLE <= weighted_sum(this, other, progress) <= this * WHOLE,
{
    let sum = weighted_sum(this, other, progress);
    lemma_round_of_multiple(this);
    lemma_round_of_multiple(other);
    if this <= other {
        assert(this * WHOLE <= sum <= other * WHOLE) by (nonlinear_arith)
            requires
                this <= other,
                0 <= progress <= WHOLE,
                sum == this * (WHOLE - progress) + other * progress,
        ;
        lemma_round_is_monotonic(this * WHOLE, sum);
        lemma_round_is_monotonic(sum, other * WHOLE);
    }
    if other <= this {
        assert(other * WHOLE <= sum <= this * WHOLE) by (nonlinear_arith)
            requires
                other <= this,
                0 <= progress <= WHOLE,
                sum == this * (WHOLE - progress) + other * progress,
        ;
        lemma_round_is_monotonic(other * WHOLE, sum);
        lemma_round_is_monotonic(sum, this * WHOLE);
    }
}

impl Animate for i64 {
    open spec fn animate_spec(&self, other: &Self, procedure: Procedure) -> Result<Self, ()> {
        Ok(blend_number(*self, *other, procedure))
    }

    /// Blends two numbers. The exact result is rounded to the nearest whole
    /// number and kept within what an `i64` holds; it is never an error.
    fn animate(&self, other: &Self, procedure: Procedure) -> (result: Result<Self, ()>) {
        let this: i128 = *self as i128;
        let that: i128 = *other as i128;
        let exact: i128 = match procedure {
            Procedure::Interpolate { progress } => {
                let towards: i128 = progress.millionths as i128;
                let away: i128 = WHOLE as i128 - towards;
                assert(-0x8000_0000_0000_0000 * 0x1_0000_0000 <= this * away
                    <= 0x8000_0000_0000_0000 * 0x1_0000_0000) by (nonlinear_arith)
                    requires
                        -0x8000_0000_0000_0000 <= this < 0x8000_0000_0000_0000,
                        -0x1_0000_0000 <= away <= 0x1_0000_0000,
                ;
                assert(-0x8000_0000_0000_0000 * 0x1_0000_0000 <= that * towards
                    <= 0x8000_0000_0000_0000 * 0x1_0000_0000) by (nonlinear_arith)
                    requires
                        -0x8000_0000_0000_0000 <= that < 0x8000_0000_0000_0000,
                        -0x1_0000_0000 <= towards <= 0x1_0000_0000,
                ;
                round_to_whole(this * away + that * towards)
            },
            Procedure::Add => this + that,
            Procedure::Accumulate { count } => {
                let times: i128 = count as i128;
                assert(-0x8000_0000_0000_0000 * 0xffff_ffff_ffff_ffff <= that * times
                    <= 0x7fff_ffff_ffff_ffff * 0xffff_ffff_ffff_ffff) by (nonlinear_arith)
                    requires
                        -0x8000_0000_0000_0000 <= that <= 0x7fff_ffff_ffff_ffff,
                        0 <= times <= 0xffff_ffff_ffff_ffff,
                ;
                this + that * times
            },
        };
        Ok(saturate_to_i64(exact))
    }
}

} // verus!
