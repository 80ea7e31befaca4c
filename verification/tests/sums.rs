use length_animation::{
    animate_percentage_half, Animate, Length, LengthPercentage, Percentage, Procedure, Progress,
};
use style_traits::values::specified::AllowedNumericType;

fn halfway() -> Procedure {
    Procedure::Interpolate { progress: Progress::from_millionths(500_000) }
}

fn procedures() -> Vec<Procedure> {
    vec![
        halfway(),
        Procedure::Interpolate { progress: Progress::from_millionths(0) },
        Procedure::Interpolate { progress: Progress::from_millionths(1_000_000) },
        Procedure::Interpolate { progress: Progress::from_millionths(-250_000) },
        Procedure::Interpolate { progress: Progress::from_millionths(1_750_000) },
        Procedure::Add,
        Procedure::Accumulate { count: 0 },
        Procedure::Accumulate { count: 5 },
    ]
}

#[test]
fn length_blended_with_length_and_percentage() {
    let a = LengthPercentage::new_calc(Length::new(10), None, AllowedNumericType::All);
    let b = LengthPercentage::new_calc(
        Length::new(20),
        Some(Percentage::new(500_000)),
        AllowedNumericType::All,
    );
    let r = a.animate(&b, halfway()).unwrap();
    assert_eq!(r.unclamped_length(), Length::new(15));
    assert_eq!(r.specified_percentage(), Some(Percentage::new(250_000)));
    assert_eq!(r.clamping_mode(), AllowedNumericType::All);
    assert_eq!(
        r,
        LengthPercentage::new_calc(
            Length::new(15),
            Some(Percentage::new(250_000)),
            AllowedNumericType::All
        )
    );
}

#[test]
fn equal_lengths_without_percentage_stay_as_they_are() {
    let a = LengthPercentage::new_calc(Length::new(5), None, AllowedNumericType::All);
    let b = LengthPercentage::new_calc(Length::new(5), None, AllowedNumericType::All);
    let steps: [i32; 7] = [0, 1, 250_000, 500_000, 1_000_000, -3_000_000, 7_500_000];
    for p in steps {
        let procedure = Procedure::Interpolate { progress: Progress::from_millionths(p) };
        assert_eq!(
            a.animate(&b, procedure),
            Ok(LengthPercentage::new_calc(Length::new(5), None, AllowedNumericType::All))
        );
    }
}

#[test]
fn no_percentage_on_either_side_gives_none() {
    for procedure in procedures() {
        assert_eq!(animate_percentage_half(None, None, procedure), Ok(None));
        let a = LengthPercentage::new_length(Length::new(3));
        let b = LengthPercentage::new_length(Length::new(9));
        assert_eq!(a.animate(&b, procedure).unwrap().specified_percentage(), None);
    }
}

#[test]
fn a_missing_percentage_counts_as_zero() {
    let x = Percentage::new(800_000);
    let zero = Percentage::zero();
    for procedure in procedures() {
        assert_eq!(
            animate_percentage_half(None, Some(x), procedure),
            Ok(Some(zero.animate(&x, procedure).unwrap()))
        );
        assert_eq!(
            animate_percentage_half(Some(x), None, procedure),
            Ok(Some(x.animate(&zero, procedure).unwrap()))
        );
    }
    assert_eq!(
        animate_percentage_half(None, Some(x), halfway()),
        Ok(Some(Percentage::new(400_000)))
    );
    assert_eq!(
        animate_percentage_half(Some(x), None, Procedure::Interpolate {
            progress: Progress::from_millionths(250_000)
        }),
        Ok(Some(Percentage::new(600_000)))
    );
    assert_eq!(
        animate_percentage_half(None, Some(x), Procedure::Accumulate { count: 2 }),
        Ok(Some(Percentage::new(1_600_000)))
    );
    assert_eq!(animate_percentage_half(Some(x), None, Procedure::Add), Ok(Some(x)));
    // A percentage of 0% that was written is still a percentage.
    assert_eq!(animate_percentage_half(Some(zero), None, Procedure::Add), Ok(Some(zero)));
}

#[test]
fn two_percentages_are_blended_like_any_two_numbers() {
    let x = Percentage::new(200_000);
    let y = Percentage::new(600_000);
    for procedure in procedures() {
        assert_eq!(
            animate_percentage_half(Some(x), Some(y), procedure),
            Ok(Some(x.animate(&y, procedure).unwrap()))
        );
    }
    assert_eq!(
        animate_percentage_half(Some(x), Some(y), halfway()),
        Ok(Some(Percentage::new(400_000)))
    );
    assert_eq!(
        animate_percentage_half(Some(x), Some(y), Procedure::Add),
        Ok(Some(Percentage::new(800_000)))
    );
    assert_eq!(
        animate_percentage_half(Some(x), Some(y), Procedure::Accumulate { count: 3 }),
        Ok(Some(Percentage::new(2_000_000)))
    );
}

#[test]
fn the_result_has_a_percentage_where_one_side_has() {
    let with = LengthPercentage::new_calc(
        Length::new(1),
        Some(Percentage::new(100_000)),
        AllowedNumericType::All,
    );
    let without = LengthPercentage::new_length(Length::new(2));
    for procedure in procedures() {
        assert!(with.animate(&with, procedure).unwrap().specified_percentage().is_some());
        assert!(with.animate(&without, procedure).unwrap().specified_percentage().is_some());
        assert!(without.animate(&with, procedure).unwrap().specified_percentage().is_some());
        assert!(without.animate(&without, procedure).unwrap().specified_percentage().is_none());
    }
}

#[test]
fn the_result_is_marked_all_whatever_the_marks_were() {
    let marks: [AllowedNumericType; 4] = [
        AllowedNumericType::All,
        AllowedNumericType::NonNegative,
        AllowedNumericType::AtLeastOne,
        AllowedNumericType::ZeroToOne,
    ];
    for left in marks {
        for right in marks {
            for procedure in procedures() {
                let a = LengthPercentage::new_calc(Length::new(4), None, left);
                let b = LengthPercentage::new_calc(
                    Length::new(-8),
                    Some(Percentage::new(300_000)),
                    right,
                );
                assert_eq!(a.clamping_mode(), left);
                assert_eq!(b.clamping_mode(), right);
                assert_eq!(a.animate(&b, procedure).unwrap().clamping_mode(), AllowedNumericType::All);
                assert_eq!(b.animate(&a, procedure).unwrap().clamping_mode(), AllowedNumericType::All);
                assert_eq!(a.animate(&a, procedure).unwrap().clamping_mode(), AllowedNumericType::All);
            }
        }
    }
}

#[test]
fn a_value_may_leave_its_range_on_the_way() {
    let a = LengthPercentage::new_calc(Length::new(10), None, AllowedNumericType::NonNegative);
    let b = LengthPercentage::new_calc(Length::new(20), None, AllowedNumericType::NonNegative);
    let overshoot = Procedure::Interpolate { progress: Progress::from_millionths(-2_000_000) };
    assert_eq!(
        a.animate(&b, overshoot),
        Ok(LengthPercentage::new_calc(Length::new(-10), None, AllowedNumericType::All))
    );
}

#[test]
fn a_percentage_alone_has_a_length_of_zero() {
    let a = LengthPercentage::new_percentage(Percentage::new(400_000));
    assert_eq!(a.unclamped_length(), Length::zero());
    assert_eq!(a.unclamped_length().units(), 0);
    assert_eq!(a.specified_percentage(), Some(Percentage::new(400_000)));
    assert_eq!(a.clamping_mode(), AllowedNumericType::All);
    let b = LengthPercentage::new_length(Length::new(30));
    assert_eq!(b.unclamped_length(), Length::new(30));
    assert_eq!(b.specified_percentage(), None);
    assert_eq!(b.clamping_mode(), AllowedNumericType::All);
    assert_eq!(
        a.animate(&b, halfway()),
        Ok(LengthPercentage::new_calc(
            Length::new(15),
            Some(Percentage::new(200_000)),
            AllowedNumericType::All
        ))
    );
}

#[test]
fn both_parts_are_blended_under_the_same_procedure() {
    let a = LengthPercentage::new_calc(
        Length::new(100),
        Some(Percentage::new(100_000)),
        AllowedNumericType::NonNegative,
    );
    let b = LengthPercentage::new_calc(
        Length::new(300),
        Some(Percentage::new(900_000)),
        AllowedNumericType::ZeroToOne,
    );
    for procedure in procedures() {
        let r = a.animate(&b, procedure).unwrap();
        assert_eq!(
            Ok(r.unclamped_length()),
            Length::new(100).animate(&Length::new(300), procedure)
        );
        assert_eq!(
            Ok(r.specified_percentage().unwrap()),
            Percentage::new(100_000).animate(&Percentage::new(900_000), procedure)
        );
    }
    assert_eq!(
        a.animate(&b, Procedure::Add),
        Ok(LengthPercentage::new_calc(
            Length::new(400),
            Some(Percentage::new(1_000_000)),
            AllowedNumericType::All
        ))
    );
    assert_eq!(
        a.animate(&b, Procedure::Accumulate { count: 2 }),
        Ok(LengthPercentage::new_calc(
            Length::new(700),
            Some(Percentage::new(1_900_000)),
            AllowedNumericType::All
        ))
    );
    assert_eq!(
        a.animate(&b, Procedure::Interpolate { progress: Progress::from_millionths(250_000) }),
        Ok(LengthPercentage::new_calc(
            Length::new(150),
            Some(Percentage::new(300_000)),
            AllowedNumericType::All
        ))
    );
}

#[test]
fn interpolating_a_sum_with_itself_keeps_its_parts() {
    let a = LengthPercentage::new_calc(
        Length::new(-12),
        Some(Percentage::new(333_333)),
        AllowedNumericType::NonNegative,
    );
    let steps: [i32; 5] = [0, 7, 500_000, 1_000_000, -123_456];
    for p in steps {
        let procedure = Procedure::Interpolate { progress: Progress::from_millionths(p) };
        assert_eq!(
            a.animate(&a, procedure),
            Ok(LengthPercentage::new_calc(
                Length::new(-12),
                Some(Percentage::new(333_333)),
                AllowedNumericType::All
            ))
        );
    }
}

#[test]
fn interpolating_sums_is_the_same_from_either_end() {
    let a = LengthPercentage::new_calc(Length::new(11), None, AllowedNumericType::NonNegative);
    let b = LengthPercentage::new_calc(
        Length::new(-40),
        Some(Percentage::new(700_001)),
        AllowedNumericType::All,
    );
    let steps: [i32; 5] = [0, 1, 333_333, 1_250_000, -600_000];
    for p in steps {
        let progress = Progress::from_millionths(p);
        let rest = progress.complement().unwrap();
        assert_eq!(
            a.animate(&b, Procedure::Interpolate { progress }),
            b.animate(&a, Procedure::Interpolate { progress: rest })
        );
    }
}
