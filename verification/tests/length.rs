use term_list::length::{saturating_negation, saturating_sum, Length, Smart, UNITS};

#[test]
fn units_per_point_and_em() {
    assert_eq!(UNITS, 1000);
}

#[test]
fn zero_is_zero() {
    assert_eq!(Length::zero(), Length { abs: 0, em: 0 });
    assert!(Length::zero().is_zero());
}

#[test]
fn points_and_ems_fill_one_part() {
    assert_eq!(Length::points(2500), Length { abs: 2500, em: 0 });
    assert_eq!(Length::ems(-600), Length { abs: 0, em: -600 });
}

#[test]
fn is_zero_needs_both_parts_zero() {
    assert!(!Length { abs: 1, em: 0 }.is_zero());
    assert!(!Length { abs: 0, em: -1 }.is_zero());
    assert!(!Length { abs: 3, em: -3 }.is_zero());
}

#[test]
fn plus_adds_part_by_part() {
    let a = Length { abs: 5000, em: 2000 };
    let b = Length { abs: -1500, em: 650 };
    assert_eq!(a.plus(b), Length { abs: 3500, em: 2650 });
    assert_eq!(b.plus(a), Length { abs: 3500, em: 2650 });
    assert_eq!(a.plus(Length::zero()), a);
}

#[test]
fn plus_saturates_at_both_ends() {
    let top = Length { abs: i64::MAX, em: i64::MIN };
    let step = Length { abs: 1, em: -1 };
    assert_eq!(top.plus(step), Length { abs: i64::MAX, em: i64::MIN });
    assert_eq!(
        Length { abs: i64::MAX - 1, em: i64::MIN + 1 }.plus(step),
        Length { abs: i64::MAX, em: i64::MIN }
    );
}

#[test]
fn negated_flips_both_parts() {
    assert_eq!(Length { abs: 2000, em: -650 }.negated(), Length { abs: -2000, em: 650 });
    assert_eq!(Length::zero().negated(), Length::zero());
}

#[test]
fn negated_saturates_at_the_minimum() {
    assert_eq!(
        Length { abs: i64::MIN, em: i64::MAX }.negated(),
        Length { abs: i64::MAX, em: -i64::MAX }
    );
}

#[test]
fn saturating_sum_matches_std() {
    let samples = [i64::MIN, i64::MIN + 1, -7, -1, 0, 1, 7, i64::MAX - 1, i64::MAX];
    for a in samples {
        for b in samples {
            assert_eq!(saturating_sum(a, b), a.saturating_add(b));
        }
    }
}

#[test]
fn saturating_negation_matches_std() {
    let samples = [i64::MIN, i64::MIN + 1, -7, -1, 0, 1, 7, i64::MAX - 1, i64::MAX];
    for a in samples {
        assert_eq!(saturating_negation(a), a.saturating_neg());
    }
}

#[test]
fn smart_unwrap_or_takes_custom_or_fallback() {
    let fallback = Length::ems(650);
    assert_eq!(Smart::Custom(Length::points(4000)).unwrap_or(fallback), Length::points(4000));
    assert_eq!(Smart::Auto.unwrap_or(fallback), fallback);
}

#[test]
fn smart_clone_keeps_the_value() {
    let custom = Smart::Custom(Length::points(1));
    assert_eq!(custom.clone(), custom);
    let auto: Smart<Length> = Smart::Auto;
    assert_eq!(auto.clone(), Smart::Auto);
}
