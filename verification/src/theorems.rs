//! What holds of every blend, stated over the values that `animate_spec`
//! names.

use vstd::prelude::*;
use style_traits::values::specified::AllowedNumericType;
use crate::animate::Animate;
use crate::length::Length;
use crate::length_percentage::{blend_percentage_half, percentage_or_zero, LengthPercentage};
use crate::number::{
    interpolate, interpolation_fits, lemma_interpolate_between, lemma_interpolate_ends,
    lemma_interpolate_is_nearest, lemma_interpolate_mirrored, lemma_interpolate_same,
    weighted_sum,
};
use crate::percentage::Percentage;
use crate::procedure::{Procedure, Progress, WHOLE};

verus! {

/// Interpolating between the lengths `a` and `b` gives the length nearest to
/// `a * (1 - progress) + b * progress`, no more than half a unit away from
/// it, wherever that value fits into an `i64`.
pub proof fn lemma_length_interpolation_is_nearest(a: Length, b: Length, progress: Progress)
    requires
        interpolation_fits(a@, b@, progress@),
    ensures
        a.animate_spec(&b, Procedure::Interpolate { progress }) is Ok,
        -WHOLE <= 2 * (WHOLE * a.animate_spec(&b, Procedure::Interpolate { progress }).unwrap()@
            - weighted_sum(a@, b@, progress@)) <= WHOLE,
{
    lemma_interpolate_is_nearest(a.units, b.units, progress@);
}

/// Interpolating between the percentages `a` and `b` gives the percentage
/// nearest to `a * (1 - progress) + b * progress`, no more than half a
/// millionth away from it, wherever that value fits into an `i64`.
pub proof fn lemma_percentage_interpolation_is_nearest(
    a: Percentage,
    b: Percentage,
    progress: Progress,
)
    requires
        interpolation_fits(a@, b@, progress@),
    ensures
        a.animate_spec(&b, Procedure::Interpolate { progress }) is Ok,
        -WHOLE <= 2 * (WHOLE * a.animate_spec(&b, Procedure::Interpolate { progress }).unwrap()@
            - weighted_sum(a@, b@, progress@)) <= WHOLE,
{
    lemma_interpolate_is_nearest(a.millionths, b.millionths, progress@);
}

/// With a progress from 0 to one whole, interpolating between two lengths
/// gives a length between the two: the exact value fits, and nothing is cut
/// off.
pub proof fn lemma_length_interpolation_is_between(a: Length, b: Length, progress: Progress)
    requires
        0 <= progress@ <= WHOLE,
    ensures
        interpolation_fits(a@, b@, progress@),
        a.animate_spec(&b, Procedure::Interpolate { progress }) is Ok,
        a.animate_spec(&b, Procedure::Interpolate { progress }).unwrap()@ == interpolate(
            a@,
            b@,
            progress@,
        ),
        a@ <= b@ ==> a@ <= interpolate(a@, b@, progress@) <= b@,
        b@ <= a@ ==> b@ <= interpolate(a@, b@, progress@) <= a@,
{
    lemma_interpolate_between(a@, b@, progress@);
}

/// Interpolating between a length and itself gives that length, whatever the
/// progress.
pub proof fn lemma_length_interpolation_identity(a: Length, progress: Progress)
    ensures
        a.animate_spec(&a, Procedure::Interpolate { progress }) == Ok::<Length, ()>(a),
{
    lemma_interpolate_same(a@, progress@);
}

/// Interpolating between a percentage and itself gives that percentage,
/// whatever the progress.
pub proof fn lemma_percentage_interpolation_identity(a: Percentage, progress: Progress)
    ensures
        a.animate_spec(&a, Procedure::Interpolate { progress }) == Ok::<Percentage, ()>(a),
{
    lemma_interpolate_same(a@, progress@);
}

/// Interpolating between a sum and itself gives that sum, marked `All`,
/// whatever the progress.
pub proof fn lemma_length_percentage_interpolation_identity(
    a: LengthPercentage,
    progress: Progress,
)
    ensures
        a.animate_spec(&a, Procedure::Interpolate { progress }) == Ok::<LengthPercentage, ()>(
            LengthPercentage {
                length: a.length,
                percentage: a.percentage,
                clamping_mode: AllowedNumericType::All,
            },
        ),
{
    lemma_interpolate_same(a.length@, progress@);
    if let Some(p) = a.percentage {
        lemma_interpolate_same(p@, progress@);
    }
}

/// At progress 0 an interpolation between two lengths gives the first, at
/// progress one whole the second.
pub proof fn lemma_length_interpolation_boundary(a: Length, b: Length)
    ensures
        a.animate_spec(&b, Procedure::Interpolate { progress: Progress { millionths: 0 } })
            == Ok::<Length, ()>(a),
        a.animate_spec(
            &b,
            Procedure::Interpolate { progress: Progress { millionths: 1_000_000 } },
        ) == Ok::<Length, ()>(b),
{
    lemma_interpolate_ends(a@, b@);
}

/// At progress 0 an interpolation between two percentages gives the first,
/// at progress one whole the second.
pub proof fn lemma_percentage_interpolation_boundary(a: Percentage, b: Percentage)
    ensures
        a.animate_spec(&b, Procedure::Interpolate { progress: Progress { millionths: 0 } })
            == Ok::<Percentage, ()>(a),
        a.animate_spec(
            &b,
            Procedure::Interpolate { progress: Progress { millionths: 1_000_000 } },
        ) == Ok::<Percentage, ()>(b),
{
    lemma_interpolate_ends(a@, b@);
}

/// At progress 0 an interpolation between two sums gives the length of the
/// first, at progress one whole the length of the second, and likewise the
/// percentage, with 0% for a missing one where the other sum has one.
pub proof fn lemma_length_percentage_interpolation_boundary(
    a: LengthPercentage,
    b: LengthPercentage,
)
    ensures
        a.animate_spec(&b, Procedure::Interpolate { progress: Progress { millionths: 0 } })
            == Ok::<LengthPercentage, ()>(
            LengthPercentage {
                length: a.length,
                percentage: if a.percentage is None && b.percentage is None {
                    None
                } else {
                    Some(percentage_or_zero(a.percentage))
                },
                clamping_mode: AllowedNumericType::All,
            },
        ),
        a.animate_spec(
            &b,
            Procedure::Interpolate { progress: Progress { millionths: 1_000_000 } },
        ) == Ok::<LengthPercentage, ()>(
            LengthPercentage {
                length: b.length,
                percentage: if a.percentage is None && b.percentage is None {
                    None
                } else {
                    Some(percentage_or_zero(b.percentage))
                },
                clamping_mode: AllowedNumericType::All,
            },
        ),
{
    lemma_interpolate_ends(a.length@, b.length@);
    lemma_interpolate_ends(percentage_or_zero(a.percentage)@, percentage_or_zero(b.percentage)@);
}

/// Interpolating from `a` to `b` at `progress` gives the same length as
/// interpolating from `b` to `a` at `rest`, where `rest` is one whole minus
/// `progress`.
pub proof fn lemma_length_interpolation_symmetry(
    a: Length,
    b: Length,
    progress: Progress,
    rest: Progress,
)
    requires
        rest@ == WHOLE - progress@,
    ensures
        a.animate_spec(&b, Procedure::Interpolate { progress }) == b.animate_spec(
            &a,
            Procedure::Interpolate { progress: rest },
        ),
{
    lemma_interpolate_mirrored(a@, b@, progress@);
}

/// Interpolating from `a` to `b` at `progress` gives the same percentage as
/// interpolating from `b` to `a` at `rest`, where `rest` is one whole minus
/// `progress`.
pub proof fn lemma_percentage_interpolation_symmetry(
    a: Percentage,
    b: Percentage,
    progress: Progress,
    rest: Progress,
)
    requires
        rest@ == WHOLE - progress@,
    ensures
        a.animate_spec(&b, Procedure::Interpolate { progress }) == b.animate_spec(
            &a,
            Procedure::Interpolate { progress: rest },
        ),
{
    lemma_interpolate_mirrored(a@, b@, progress@);
}

/// Interpolating from `a` to `b` at `progress` gives the same sum as
/// interpolating from `b` to `a` at `rest`, where `rest` is one whole minus
/// `progress`.
pub proof fn lemma_length_percentage_interpolation_symmetry(
    a: LengthPercentage,
    b: LengthPercentage,
    progress: Progress,
    rest: Progress,
)
    requires
        rest@ == WHOLE - progress@,
    ensures
        a.animate_spec(&b, Procedure::Interpolate { progress }) == b.animate_spec(
            &a,
            Procedure::Interpolate { progress: rest },
        ),
{
    lemma_interpolate_mirrored(a.length@, b.length@, progress@);
    lemma_interpolate_mirrored(
        percentage_or_zero(a.percentage)@,
        percentage_or_zero(b.percentage)@,
        progress@,
    );
}

/// The percentage of a blend of two sums: none where neither sum has one;
/// where one sum has one, the blend of it with 0% on the side of the other;
/// where both have one, the blend of the two.
pub proof fn lemma_percentage_presence(
    this: Option<Percentage>,
    other: Option<Percentage>,
    procedure: Procedure,
)
    ensures
        this is None && other is None ==> blend_percentage_half(this, other, procedure) is None,
        this is Some || other is Some ==> blend_percentage_half(this, other, procedure) is Some,
        this is None && other is Some ==> Ok::<Percentage, ()>(
            blend_percentage_half(this, other, procedure).unwrap(),
        ) == (Percentage { millionths: 0 }).animate_spec(&other.unwrap(), procedure),
        this is Some && other is None ==> Ok::<Percentage, ()>(
            blend_percentage_half(this, other, procedure).unwrap(),
        ) == this.unwrap().animate_spec(&Percentage { millionths: 0 }, procedure),
        this is Some && other is Some ==> Ok::<Percentage, ()>(
            blend_percentage_half(this, other, procedure).unwrap(),
        ) == this.unwrap().animate_spec(&other.unwrap(), procedure),
{
}

/// A blend of two sums has a percentage exactly where one of the two has.
pub proof fn lemma_length_percentage_presence(
    a: LengthPercentage,
    b: LengthPercentage,
    procedure: Procedure,
)
    ensures
        a.animate_spec(&b, procedure) is Ok,
        a.animate_spec(&b, procedure).unwrap().percentage is Some <==> (a.percentage is Some
            || b.percentage is Some),
        a.animate_spec(&b, procedure).unwrap().percentage == blend_percentage_half(
            a.percentage,
            b.percentage,
            procedure,
        ),
{
}

/// A blend of two sums is marked `All`, whatever the marks of the two.
pub proof fn lemma_blend_is_unclamped(
    a: LengthPercentage,
    b: LengthPercentage,
    procedure: Procedure,
)
    ensures
        a.animate_spec(&b, procedure) is Ok,
        a.animate_spec(&b, procedure).unwrap().clamping_mode == AllowedNumericType::All,
{
}

/// Every part of a blend of two sums is blended under the one procedure that
/// was given: the length is the blend of the two lengths under it, and the
/// percentage the blend of the two percentages under it.
pub proof fn lemma_parts_share_procedure(
    a: LengthPercentage,
    b: LengthPercentage,
    procedure: Procedure,
)
    ensures
        a.animate_spec(&b, procedure) is Ok,
        Ok::<Length, ()>(a.animate_spec(&b, procedure).unwrap().length) == a.length.animate_spec(
            &b.length,
            procedure,
        ),
        a.animate_spec(&b, procedure).unwrap().percentage == blend_percentage_half(
            a.percentage,
            b.percentage,
            procedure,
        ),
{
}

} // verus!
