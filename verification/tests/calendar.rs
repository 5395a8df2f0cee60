use workbeat::calendar::{
    local_date, period_bounds, CalendarDate, Period, MAX_DAY_NUMBER, MIN_DAY_NUMBER,
};
use workbeat::text::{i64_to_decimal, u64_to_decimal};
use workbeat::value_objects::{TimeZoneOffset, UtcTimestamp, MAX_TIMESTAMP_MILLIS, MIN_TIMESTAMP_MILLIS};

#[test]
fn dates_are_numbered_from_the_first_day_of_the_era() {
    assert_eq!(CalendarDate::from_ymd(1, 1, 1).unwrap().day_number(), 1);
    assert_eq!(CalendarDate::from_ymd(1970, 1, 1).unwrap().day_number(), 719_163);
    assert!(CalendarDate::from_ymd(2026, 2, 1).unwrap().is_before(&CalendarDate::from_ymd(2026, 2, 2).unwrap()));
}

#[test]
fn impossible_dates_are_rejected() {
    assert_eq!(CalendarDate::from_ymd(2026, 2, 29), None);
    assert_eq!(CalendarDate::from_ymd(2026, 13, 1), None);
    assert_eq!(CalendarDate::from_ymd(2026, 4, 31), None);
    assert!(CalendarDate::from_ymd(2028, 2, 29).is_some());
}

#[test]
fn dates_read_as_iso_text() {
    assert_eq!(CalendarDate::from_ymd(2026, 8, 3).unwrap().to_text(), Some("2026-08-03".to_string()));
    assert_eq!(CalendarDate::from_day_number(i32::MAX).to_text(), None);
}

#[test]
fn local_date_follows_the_user_offset() {
    // 2026-08-23T23:30:00Z.
    let instant = UtcTimestamp::new(1_787_527_800_000);
    let utc = local_date(&instant, &TimeZoneOffset::utc()).unwrap();
    let east = local_date(&instant, &TimeZoneOffset::new(7 * 60).unwrap()).unwrap();
    let west = local_date(&instant, &TimeZoneOffset::new(-12 * 60).unwrap()).unwrap();
    assert_eq!(utc, CalendarDate::from_ymd(2026, 8, 23).unwrap());
    assert_eq!(east, CalendarDate::from_ymd(2026, 8, 24).unwrap());
    assert_eq!(west, CalendarDate::from_ymd(2026, 8, 23).unwrap());
}

#[test]
fn a_week_runs_monday_to_sunday_around_the_date() {
    for day in 17..=23 {
        let at = CalendarDate::from_ymd(2026, 8, day).unwrap();
        let (start, end) = period_bounds(Period::Week, at).unwrap();
        assert_eq!(start, CalendarDate::from_ymd(2026, 8, 17).unwrap());
        assert_eq!(end, CalendarDate::from_ymd(2026, 8, 23).unwrap());
    }
}

#[test]
fn months_end_on_their_last_day() {
    let (start, end) = period_bounds(Period::Month, CalendarDate::from_ymd(2028, 2, 10).unwrap()).unwrap();
    assert_eq!(start, CalendarDate::from_ymd(2028, 2, 1).unwrap());
    assert_eq!(end, CalendarDate::from_ymd(2028, 2, 29).unwrap());
    let (start, end) = period_bounds(Period::Month, CalendarDate::from_ymd(2026, 12, 31).unwrap()).unwrap();
    assert_eq!(start, CalendarDate::from_ymd(2026, 12, 1).unwrap());
    assert_eq!(end, CalendarDate::from_ymd(2026, 12, 31).unwrap());
}

#[test]
fn dates_outside_the_calendar_have_no_period() {
    assert_eq!(period_bounds(Period::Week, CalendarDate::from_day_number(i32::MAX)), None);
    assert_eq!(period_bounds(Period::Month, CalendarDate::from_day_number(i32::MIN)), None);
}

#[test]
fn numbers_read_as_decimal_text() {
    assert_eq!(u64_to_decimal(0), "0");
    assert_eq!(u64_to_decimal(u64::MAX), "18446744073709551615");
    assert_eq!(i64_to_decimal(-42), "-42");
    assert_eq!(i64_to_decimal(i64::MIN), "-9223372036854775808");
}

#[test]
fn the_calendar_runs_from_its_first_to_its_last_date() {
    assert_eq!(CalendarDate::from_ymd(-262_143, 1, 1).unwrap().day_number(), MIN_DAY_NUMBER);
    assert_eq!(CalendarDate::from_ymd(262_142, 12, 31).unwrap().day_number(), MAX_DAY_NUMBER);
    assert_eq!(CalendarDate::from_ymd(-262_144, 12, 31), None);
    assert_eq!(CalendarDate::from_ymd(262_143, 1, 1), None);
    assert_eq!(CalendarDate::from_day_number(MIN_DAY_NUMBER).to_text(), Some("-262143-01-01".to_string()));
    assert_eq!(CalendarDate::from_day_number(MAX_DAY_NUMBER).to_text(), Some("+262142-12-31".to_string()));
    assert_eq!(CalendarDate::from_day_number(MIN_DAY_NUMBER - 1).to_text(), None);
    assert_eq!(CalendarDate::from_day_number(MAX_DAY_NUMBER + 1).to_text(), None);
}

#[test]
fn the_first_and_last_instants_have_the_first_and_last_dates() {
    let first = local_date(&UtcTimestamp::new(MIN_TIMESTAMP_MILLIS), &TimeZoneOffset::utc()).unwrap();
    let last = local_date(&UtcTimestamp::new(MAX_TIMESTAMP_MILLIS), &TimeZoneOffset::utc()).unwrap();
    assert_eq!(first.day_number(), MIN_DAY_NUMBER);
    assert_eq!(last.day_number(), MAX_DAY_NUMBER);
    // One minute before the first instant, in local time, has no date.
    assert_eq!(local_date(&UtcTimestamp::new(MIN_TIMESTAMP_MILLIS), &TimeZoneOffset::new(-1).unwrap()), None);
}

#[test]
fn instants_before_1970_fall_on_the_earlier_day() {
    // 1969-12-31T23:59:59.999Z.
    let date = local_date(&UtcTimestamp::new(-1), &TimeZoneOffset::utc()).unwrap();
    assert_eq!(date, CalendarDate::from_ymd(1969, 12, 31).unwrap());
}

#[test]
fn every_week_in_the_calendar_starts_on_a_monday() {
    // 1970-01-01 was a Thursday.
    let (start, end) = period_bounds(Period::Week, CalendarDate::from_ymd(1970, 1, 1).unwrap()).unwrap();
    assert_eq!(start, CalendarDate::from_ymd(1969, 12, 29).unwrap());
    assert_eq!(end, CalendarDate::from_ymd(1970, 1, 4).unwrap());
    assert!(period_bounds(Period::Week, CalendarDate::from_day_number(MIN_DAY_NUMBER)).is_some());
    assert!(period_bounds(Period::Week, CalendarDate::from_day_number(MAX_DAY_NUMBER)).is_some());
    assert_eq!(period_bounds(Period::Week, CalendarDate::from_day_number(MAX_DAY_NUMBER + 1)), None);
}

#[test]
fn years_outside_four_digits_are_written_with_their_sign() {
    assert_eq!(CalendarDate::from_ymd(-1, 12, 31).unwrap().to_text(), Some("-0001-12-31".to_string()));
    assert_eq!(CalendarDate::from_ymd(0, 1, 1).unwrap().to_text(), Some("0000-01-01".to_string()));
    assert_eq!(CalendarDate::from_ymd(10_000, 1, 1).unwrap().to_text(), Some("+10000-01-01".to_string()));
}

#[test]
fn leap_days_follow_the_gregorian_rules() {
    assert!(CalendarDate::from_ymd(2000, 2, 29).is_some());
    assert_eq!(CalendarDate::from_ymd(1900, 2, 29), None);
    assert!(CalendarDate::from_ymd(2024, 2, 29).is_some());
    assert_eq!(CalendarDate::from_ymd(2000, 3, 1).unwrap().day_number(), 730_180);
    assert_eq!(CalendarDate::from_ymd(0, 12, 31).unwrap().day_number(), 0);
}

#[test]
fn every_month_but_the_last_of_the_calendar_has_bounds() {
    let first = period_bounds(Period::Month, CalendarDate::from_day_number(MIN_DAY_NUMBER)).unwrap();
    assert_eq!(first.0.day_number(), MIN_DAY_NUMBER);
    assert_eq!(first.1.day_number(), MIN_DAY_NUMBER + 30);
    let (start, end) = period_bounds(Period::Month, CalendarDate::from_day_number(MAX_DAY_NUMBER - 31)).unwrap();
    assert_eq!(start, CalendarDate::from_ymd(262_142, 11, 1).unwrap());
    assert_eq!(end, CalendarDate::from_ymd(262_142, 11, 30).unwrap());
    assert_eq!(period_bounds(Period::Month, CalendarDate::from_day_number(MAX_DAY_NUMBER - 30)), None);
    assert_eq!(period_bounds(Period::Month, CalendarDate::from_day_number(MAX_DAY_NUMBER)), None);
}
