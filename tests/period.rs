use rustmetrics::datetime::DateTime;
use rustmetrics::period::{FinerPeriod, Period};
use rustmetrics::tenor::TenorError;

const SEOUL: i32 = 9 * 3600;

fn dt(year: i32, month: u8, day: u8) -> DateTime {
    DateTime::new(year, month, day, 0, 0, 0, 0, SEOUL).unwrap()
}

/// Months counted from zero for January, wrapping both ways.
fn month_from_index(k: i32) -> u8 {
    (((k % 12) + 12) % 12 + 1) as u8
}

fn month_index(m: u8) -> i32 {
    m as i32 - 1
}

#[test]
fn test_month_opration() {
    let datetime = dt(2023, 12, 31);
    for i in 1..=36 {
        let period = Period::new(0, i, 0);

        let new_datetime = period.apply(&datetime).unwrap();

        let res = (month_index(datetime.month()) + i) % 12;
        let res_month = month_from_index(res);
        assert_eq!(
            new_datetime.month(), res_month,
            "Failed to add {} months to {:?}. Result: {:?}",
            i, datetime, new_datetime
        );
    }

    for i in 1..=36 {
        let period = Period::new(0, -i, 0);

        let new_datetime = period.apply(&datetime).unwrap();

        let res = (month_index(datetime.month()) - i) % 12;
        let res_month = month_from_index(res);
        assert_eq!(
            new_datetime.month(), res_month,
            "Failed to add {} months to {:?}. Result: {:?}",
            i, datetime, new_datetime
        );
    }
}

#[test]
fn test_year_opration() {
    let datetime = dt(2023, 12, 31);
    for i in 1..=36 {
        let period = Period::new(i, 0, 0);
        let year = 2023 + i;
        let new_datetime = period.apply(&datetime).unwrap();

        assert_eq!(new_datetime.year(), year);
    }

    for i in 1..=36 {
        let period = Period::new(-i, 0, 0);
        let year = 2023 - i;
        let new_datetime = period.apply(&datetime).unwrap();

        assert_eq!(new_datetime.year(), year);
    }
}

#[test]
fn apply_whole_period() {
    let period = Period::new(1, 2, 3);
    let new_datetime = period.apply(&dt(2023, 12, 31)).unwrap();
    assert_eq!(new_datetime, dt(2025, 3, 3));

    let period = Period::new(1, 1, 1);
    assert_eq!(period.apply(&dt(2023, 12, 31)).unwrap(), dt(2025, 2, 1));
}

#[test]
fn apply_month_clamps_to_month_end() {
    let period = Period::new(0, 14, 0);
    assert_eq!(period.apply_month(&dt(2023, 12, 31)).unwrap(), dt(2025, 2, 28));
    let period = Period::new(0, 2, 0);
    assert_eq!(period.apply_month(&dt(2023, 12, 31)).unwrap(), dt(2024, 2, 29));
    let period = Period::new(0, -13, 0);
    assert_eq!(period.apply_month(&dt(2023, 12, 31)).unwrap(), dt(2022, 11, 30));
}

#[test]
fn apply_year_clamps_leap_day() {
    let period = Period::new(1, 0, 0);
    assert_eq!(period.apply_year(&dt(2024, 2, 29)).unwrap(), dt(2025, 2, 28));
    let period = Period::new(4, 0, 0);
    assert_eq!(period.apply_year(&dt(2024, 2, 29)).unwrap(), dt(2028, 2, 29));
}

#[test]
fn apply_day_crosses_months_and_years() {
    let period = Period::new(0, 0, 35);
    assert_eq!(period.apply_day(&dt(2023, 12, 31)).unwrap(), dt(2024, 2, 4));
    let period = Period::new(0, 0, -1);
    assert_eq!(period.apply_day(&dt(2024, 3, 1)).unwrap(), dt(2024, 2, 29));
    let period = Period::new(0, 0, 0);
    assert_eq!(period.apply_day(&dt(2024, 3, 1)).unwrap(), dt(2024, 3, 1));
}

#[test]
fn apply_leaves_supported_years() {
    let period = Period::new(2, 0, 0);
    assert_eq!(period.apply(&dt(9998, 1, 1)), None);
    let period = Period::new(0, -12, 0);
    assert_eq!(period.apply(&dt(-9999, 6, 1)), None);
}

#[test]
fn period_from_string() {
    let p = Period::new_from_string("1Y2M3D").unwrap();
    assert_eq!((p.years(), p.months(), p.days()), (1, 2, 3));
    let p = Period::new_from_string("2W").unwrap();
    assert_eq!(p, Period::new(0, 0, 14));
    let p = Period::new_from_string("").unwrap();
    assert_eq!(p, Period::new(0, 0, 0));
    let p = Period::new_from_string("10D5").unwrap();
    assert_eq!(p, Period::new(0, 0, 10));
    assert_eq!(Period::new_from_string("1X"), Err(TenorError::UnknownUnit('X')));
    assert_eq!(Period::new_from_string("3h"), Err(TenorError::UnknownUnit('h')));
    assert_eq!(Period::new_from_string("99999999999D"), Err(TenorError::NumberTooLarge));
    assert_eq!(Period::new_from_string("400000000W"), Err(TenorError::NumberTooLarge));
}

#[test]
fn finer_period_from_string() {
    let f = FinerPeriod::new_from_string("4h5m6s7l8u9n1Y2M3D").unwrap();
    assert_eq!(f.period().years(), 1);
    assert_eq!(f.period().months(), 2);
    assert_eq!(f.period().days(), 3);
    assert_eq!(f.hours(), 4);
    assert_eq!(f.minutes(), 5);
    assert_eq!(f.milli_seconds(), 6007);
    assert_eq!(f.seconds(), 6);
    assert_eq!(f.nano_seconds(), 8009);
    assert_eq!(f.micro_seconds(), 8);
    assert_eq!(FinerPeriod::new_from_string("1D4h"), Err(TenorError::EndsWithTimeUnit));
    assert_eq!(FinerPeriod::new_from_string("1Q"), Err(TenorError::UnknownUnit('Q')));
}

#[test]
fn finer_period_apply() {
    let finer = FinerPeriod::new(Period::new(1, 2, 3), 4, 5, 6, 7);
    let res = finer.apply(&dt(2023, 12, 31)).unwrap();
    let expected = DateTime::new(2025, 3, 3, 4, 5, 0, 6_000_007, SEOUL).unwrap();
    assert_eq!(res, expected);

    let finer = FinerPeriod::new(Period::new(0, 0, 0), 25, 0, 0, 0);
    let res = finer.apply(&dt(2023, 12, 31)).unwrap();
    assert_eq!(res, DateTime::new(2024, 1, 1, 1, 0, 0, 0, SEOUL).unwrap());

    let finer = FinerPeriod::new(Period::new(0, 0, 0), -1, 0, 0, 0);
    let res = finer.apply(&dt(2024, 1, 1)).unwrap();
    assert_eq!(res, DateTime::new(2023, 12, 31, 23, 0, 0, 0, SEOUL).unwrap());
}

#[test]
fn datetime_ordering_uses_offsets() {
    let seoul_nine = DateTime::new(2024, 1, 1, 9, 0, 0, 0, SEOUL).unwrap();
    let utc_midnight = DateTime::new(2024, 1, 1, 0, 0, 0, 0, 0).unwrap();
    assert_eq!(seoul_nine.instant_nanos(), utc_midnight.instant_nanos());
    assert!(!seoul_nine.precedes(&utc_midnight));
    let later = DateTime::new(2024, 1, 1, 0, 0, 0, 1, 0).unwrap();
    assert!(utc_midnight.precedes(&later));
    assert!(DateTime::new(2023, 2, 29, 0, 0, 0, 0, 0).is_none());
    assert!(DateTime::new(2024, 2, 29, 0, 0, 0, 0, 0).is_some());
    assert!(DateTime::new(2024, 13, 1, 0, 0, 0, 0, 0).is_none());
}
