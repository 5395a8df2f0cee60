//! Calendar dates, counted as chrono counts them: day 1 is 0001-01-01 of the
//! proleptic Gregorian calendar. Every conversion between instants, calendar
//! fields and day numbers is made by chrono.
use vstd::prelude::*;

use crate::text::decimal_text;
use crate::value_objects::{MAX_TIMESTAMP_MILLIS, MIN_TIMESTAMP_MILLIS, UtcTimestamp, TimeZoneOffset};

verus! {

/// Day number of chrono's first date, -262143-01-01 (`NaiveDate::MIN`).
pub const MIN_DAY_NUMBER: i32 = -95_746_129;

/// Day number of chrono's last date, 262142-12-31 (`NaiveDate::MAX`).
pub const MAX_DAY_NUMBER: i32 = 95_745_399;

/// Day number of 1970-01-01.
pub const UNIX_EPOCH_DAY_NUMBER: i32 = 719_163;

/// Milliseconds in a calendar day.
pub const MILLIS_PER_DAY: i64 = 86_400_000;

/// The day number lies in chrono's range of dates (every day number in it
/// is a date, and none outside it is).
pub open spec fn in_calendar(day_number: int) -> bool {
    MIN_DAY_NUMBER <= day_number <= MAX_DAY_NUMBER
}

/// The weekday of the date with this day number, counted from Monday (0) to
/// Sunday (6): day 1, 0001-01-01, was a Monday, and the days follow each
/// other without gap.
pub open spec fn weekday_from_monday(day_number: int) -> int {
    (day_number - 1) % 7
}

/// The day number of the UTC calendar date of an instant given in
/// milliseconds since 1970-01-01T00:00:00Z.
pub open spec fn utc_day_number_of(millis: int) -> int {
    millis / (MILLIS_PER_DAY as int) + UNIX_EPOCH_DAY_NUMBER
}

/// chrono's first year.
pub const MIN_YEAR: i32 = -262_143;

/// chrono's last year.
pub const MAX_YEAR: i32 = 262_142;

/// A leap year of the Gregorian calendar.
pub open spec fn is_leap_year(year: int) -> bool {
    year % 4 == 0 && (year % 100 != 0 || year % 400 == 0)
}

/// Number of days of `month` (1 to 12) in `year`.
pub open spec fn days_in_month(year: int, month: int) -> int {
    if month == 2 {
        if is_leap_year(year) { 29int } else { 28int }
    } else if month == 4 || month == 6 || month == 9 || month == 11 {
        30int
    } else {
        31int
    }
}

/// Number of days of the months before `month` (1 to 12) in `year`.
pub open spec fn days_before_month(year: int, month: int) -> int {
    let common: int = if month <= 1 {
        0
    } else if month == 2 {
        31
    } else if month == 3 {
        59
    } else if month == 4 {
        90
    } else if month == 5 {
        120
    } else if month == 6 {
        151
    } else if month == 7 {
        181
    } else if month == 8 {
        212
    } else if month == 9 {
        243
    } else if month == 10 {
        273
    } else if month == 11 {
        304
    } else {
        334
    };
    common + if month > 2 && is_leap_year(year) { 1int } else { 0int }
}

/// Number of days from 0001-01-01 to the first day of `year` (negative for
/// the years before 1).
pub open spec fn days_before_year(year: int) -> int {
    365 * (year - 1) + (year - 1) / 4 - (year - 1) / 100 + (year - 1) / 400
}

/// The day number of the date `year-month-day` of the proleptic Gregorian
/// calendar.
pub open spec fn ymd_day_number(year: int, month: int, day: int) -> int {
    days_before_year(year) + days_before_month(year, month) + day
}

/// `year-month-day` is a date of chrono's calendar.
pub open spec fn is_calendar_date(year: int, month: int, day: int) -> bool {
    &&& MIN_YEAR <= year <= MAX_YEAR
    &&& 1 <= month <= 12
    &&& 1 <= day <= days_in_month(year, month)
}

/// The month `ym` (year, month) of chrono's calendar holds the day number `n`.
pub open spec fn month_holds(ym: (int, int), n: int) -> bool {
    &&& MIN_YEAR <= ym.0 <= MAX_YEAR
    &&& 1 <= ym.1 <= 12
    &&& ymd_day_number(ym.0, ym.1, 1) <= n < ymd_day_number(ym.0, ym.1, 1) + days_in_month(ym.0, ym.1)
}

/// The year and month of the day number `n` (the one month that holds it;
/// see `lemma_month_unique`).
pub open spec fn year_month(n: int) -> (int, int) {
    choose|ym: (int, int)| month_holds(ym, n)
}

/// Months counted from year 0: the month `k` is month `k % 12 + 1` of year
/// `k / 12`; its first day number.
pub open spec fn month_start(k: int) -> int {
    ymd_day_number(k / 12, k % 12 + 1, 1)
}

/// Number of days of the month `k` counted from year 0.
pub open spec fn month_length(k: int) -> int {
    days_in_month(k / 12, k % 12 + 1)
}

/// Each month starts where the month before it ends.
proof fn lemma_month_follows(k: int)
    ensures
        month_start(k + 1) == month_start(k) + month_length(k),
{
    let y = k / 12;
    let m = k % 12 + 1;
    lemma_next_month_start(y, m);
    if m < 12 {
        assert((k + 1) / 12 == y && (k + 1) % 12 + 1 == m + 1);
    } else {
        assert((k + 1) / 12 == y + 1 && (k + 1) % 12 == 0);
    }
}

/// A later month starts after an earlier one ends.
proof fn lemma_months_ordered(k1: int, k2: int)
    requires
        k1 < k2,
    ensures
        month_start(k1) + month_length(k1) <= month_start(k2),
    decreases k2 - k1,
{
    lemma_month_follows(k2 - 1);
    if k1 < k2 - 1 {
        lemma_months_ordered(k1, k2 - 1);
    }
}

/// One month at most holds a day number.
pub proof fn lemma_month_unique(a: (int, int), b: (int, int), n: int)
    requires
        month_holds(a, n),
        month_holds(b, n),
    ensures
        a == b,
{
    let ka = a.0 * 12 + a.1 - 1;
    let kb = b.0 * 12 + b.1 - 1;
    assert(ka / 12 == a.0 && ka % 12 + 1 == a.1);
    assert(kb / 12 == b.0 && kb % 12 + 1 == b.1);
    if ka < kb {
        lemma_months_ordered(ka, kb);
    } else if kb < ka {
        lemma_months_ordered(kb, ka);
    }
}

/// Zero-padded decimal text of `n`, at least `width` digits.
pub open spec fn padded_decimal(n: nat, width: nat) -> Seq<char> {
    let digits = decimal_text(n);
    if digits.len() >= width {
        digits
    } else {
        Seq::new((width - digits.len()) as nat, |i: int| '0') + digits
    }
}

/// A year as chrono writes it: four digits for the years 0 to 9999, and the
/// sign and at least four digits outside them.
pub open spec fn year_text(year: int) -> Seq<char> {
    if 0 <= year <= 9999 {
        padded_decimal(year as nat, 4)
    } else if year < 0 {
        seq!['-'] + padded_decimal((-year) as nat, 4)
    } else {
        seq!['+'] + padded_decimal(year as nat, 4)
    }
}

/// The date with day number `n` as chrono writes it: the year, then the
/// month and the day of the month with two digits each, joined by `-`.
pub open spec fn date_text(n: int) -> Seq<char> {
    let ym = year_month(n);
    year_text(ym.0) + seq!['-'] + padded_decimal(ym.1 as nat, 2) + seq!['-'] + padded_decimal(
        (n - ymd_day_number(ym.0, ym.1, 1) + 1) as nat,
        2,
    )
}

/// Calls `chrono::NaiveDate::from_ymd_opt` and reads the day number of the
/// date with `Datelike::num_days_from_ce`. Claims: there is a date exactly
/// for a date of the proleptic Gregorian calendar within chrono's years, and
/// its day number counts the days from 0001-01-01 (day 1).
#[verifier::external_body]
fn day_number_of_ymd(year: i32, month: u32, day: u32) -> (r: Option<i32>)
    ensures
        is_calendar_date(year as int, month as int, day as int) ==> r == Some(
            ymd_day_number(year as int, month as int, day as int) as i32,
        ),
        !is_calendar_date(year as int, month as int, day as int) ==> r is None,
{
    match chrono::NaiveDate::from_ymd_opt(year, month, day) {
        Some(date) => Some(chrono::Datelike::num_days_from_ce(&date)),
        None => None,
    }
}

/// Calls `chrono::NaiveDate::from_num_days_from_ce_opt` and reads
/// `Weekday::num_days_from_monday` of the date. Claims: there is a date
/// exactly for a day number in chrono's range (chrono documents `None` only
/// out of range), and its weekday counts from the Monday 0001-01-01.
#[verifier::external_body]
fn days_from_monday(day_number: i32) -> (r: Option<u32>)
    ensures
        in_calendar(day_number as int) ==> r == Some(weekday_from_monday(day_number as int) as u32),
        !in_calendar(day_number as int) ==> r is None,
{
    match chrono::NaiveDate::from_num_days_from_ce_opt(day_number) {
        Some(date) => Some(chrono::Datelike::weekday(&date).num_days_from_monday()),
        None => None,
    }
}

/// Calls `chrono::NaiveDate::from_num_days_from_ce_opt` and reads
/// `Datelike::year` and `Datelike::month` of the date. Claims: there is a
/// date exactly for a day number in chrono's range (chrono documents `None`
/// only out of range), and the year and month are those of the month of
/// chrono's calendar that holds the day number.
#[verifier::external_body]
fn year_month_of(day_number: i32) -> (r: Option<(i32, u32)>)
    ensures
        r is Some <==> in_calendar(day_number as int),
        r matches Some(ym) ==> month_holds((ym.0 as int, ym.1 as int), day_number as int),
{
    match chrono::NaiveDate::from_num_days_from_ce_opt(day_number) {
        Some(date) => Some((chrono::Datelike::year(&date), chrono::Datelike::month(&date))),
        None => None,
    }
}

/// Calls `chrono::DateTime::from_timestamp_millis`, takes `date_naive` of the
/// instant and reads its `num_days_from_ce`. Claims: an instant in the range
/// that chrono represents (the range of `UtcTimestamp`) has the date that
/// lies its whole days after 1970-01-01 (chrono divides with rounding toward
/// minus infinity), and no other instant has one.
#[verifier::external_body]
fn utc_day_number(millis: i64) -> (r: Option<i32>)
    ensures
        MIN_TIMESTAMP_MILLIS <= millis <= MAX_TIMESTAMP_MILLIS ==> r == Some(
            utc_day_number_of(millis as int) as i32,
        ),
        !(MIN_TIMESTAMP_MILLIS <= millis <= MAX_TIMESTAMP_MILLIS) ==> r is None,
{
    match chrono::DateTime::from_timestamp_millis(millis) {
        Some(instant) => Some(chrono::Datelike::num_days_from_ce(&instant.date_naive())),
        None => None,
    }
}

/// Calls `chrono::NaiveDate::from_num_days_from_ce_opt` and formats the date
/// with `ToString` (chrono's `Display`). Claims: there is a date exactly for
/// a day number in chrono's range (chrono documents `None` only out of
/// range), and its text is the year, month and day as chrono writes them.
#[verifier::external_body]
fn date_text_of(day_number: i32) -> (r: Option<String>)
    ensures
        r is Some <==> in_calendar(day_number as int),
        r matches Some(s) ==> s@ == date_text(day_number as int),
{
    match chrono::NaiveDate::from_num_days_from_ce_opt(day_number) {
        Some(date) => Some(date.to_string()),
        None => None,
    }
}

/// A calendar date, as its day number (0001-01-01 is day 1); dates are
/// ordered by their day numbers.
#[derive(Debug, Clone, Copy, PartialEq, Eq, Structural, PartialOrd, Ord, Hash)]
pub struct CalendarDate {
    day_number: i32,
}

impl CalendarDate {
    pub closed spec fn spec_day_number(self) -> i32 {
        self.day_number
    }

    /// The date `year-month-day`, or `None` when it does not exist.
    pub fn from_ymd(year: i32, month: u32, day: u32) -> (r: Option<CalendarDate>)
        ensures
            is_calendar_date(year as int, month as int, day as int) ==> (r matches Some(d)
                && d.spec_day_number() == ymd_day_number(year as int, month as int, day as int)),
            !is_calendar_date(year as int, month as int, day as int) ==> r is None,
    {
        match day_number_of_ymd(year, month, day) {
            Some(n) => Some(CalendarDate { day_number: n }),
            None => None,
        }
    }

    /// The date with this day number.
    pub fn from_day_number(day_number: i32) -> (d: CalendarDate)
        ensures
            d.spec_day_number() == day_number,
    {
        CalendarDate { day_number }
    }

    pub fn day_number(&self) -> (n: i32)
        ensures
            n == self.spec_day_number(),
    {
        self.day_number
    }

    /// The date as chrono writes it (`YYYY-MM-DD` for the years 0 to 9999,
    /// a signed year outside them), or `None` outside the calendar's range.
    pub fn to_text(&self) -> (r: Option<String>)
        ensures
            in_calendar(self.spec_day_number() as int) ==> (r matches Some(s) && s@ == date_text(
                self.spec_day_number() as int,
            )),
            !in_calendar(self.spec_day_number() as int) ==> r is None,
    {
        date_text_of(self.day_number)
    }

    /// `self < other` in calendar order.
    pub fn is_before(&self, other: &CalendarDate) -> (b: bool)
        ensures
            b == (self.spec_day_number() < other.spec_day_number()),
    {
        self.day_number < other.day_number
    }
}

/// The calendar period of a period report.
#[derive(Debug, Clone, Copy, PartialEq, Eq, Structural)]
pub enum Period {
    /// Monday through Sunday.
    Week,
    /// The whole calendar month.
    Month,
}

/// First and last day number of the period containing the day `at`, from the
/// calendar facts that chrono gives; `None` where chrono cannot place the
/// period (at the edges of its range).
pub open spec fn spec_period_bounds(period: Period, at: i32) -> Option<(int, int)> {
    match period {
        Period::Week => if in_calendar(at as int) {
            Some((at - weekday_from_monday(at as int), at - weekday_from_monday(at as int) + 6))
        } else {
            None
        },
        Period::Month => if in_calendar(at as int) {
            let ym = year_month(at as int);
            if ym.0 == MAX_YEAR && ym.1 == 12 {
                None
            } else {
                let start = ymd_day_number(ym.0, ym.1, 1);
                Some((start, start + days_in_month(ym.0, ym.1) - 1))
            }
        } else {
            None
        },
    }
}

/// The first day of the next month follows the last day of this one.
pub proof fn lemma_next_month_start(year: int, month: int)
    requires
        1 <= month <= 12,
    ensures
        month < 12 ==> ymd_day_number(year, month + 1, 1) == ymd_day_number(year, month, 1)
            + days_in_month(year, month),
        month == 12 ==> ymd_day_number(year + 1, 1, 1) == ymd_day_number(year, 12, 1) + 31,
{
    if month == 12 {
        assert(year / 4 - (year - 1) / 4 == if year % 4 == 0 { 1int } else { 0int });
        assert(year / 100 - (year - 1) / 100 == if year % 100 == 0 { 1int } else { 0int });
        assert(year / 400 - (year - 1) / 400 == if year % 400 == 0 { 1int } else { 0int });
    }
}

/// The first and the last date of the week (Monday to Sunday) or the
/// calendar month that contains `at`.
pub fn period_bounds(period: Period, at: CalendarDate) -> (r: Option<(CalendarDate, CalendarDate)>)
    ensures
        spec_period_bounds(period, at.spec_day_number()) matches Some(b) ==> (r matches Some(
            dates,
        ) && dates.0.spec_day_number() == b.0 && dates.1.spec_day_number() == b.1),
        spec_period_bounds(period, at.spec_day_number()) is None ==> r is None,
        period == Period::Week ==> (r is Some <==> in_calendar(at.spec_day_number() as int)),
        period == Period::Week ==> (r matches Some(dates) ==> dates.0.spec_day_number()
            <= at.spec_day_number() <= dates.1.spec_day_number() && dates.1.spec_day_number()
            - dates.0.spec_day_number() == 6 && weekday_from_monday(dates.0.spec_day_number() as int)
            == 0),
        period == Period::Month ==> (r is Some ==> in_calendar(at.spec_day_number() as int)),
        period == Period::Month ==> (r matches Some(dates) ==> dates.0.spec_day_number()
            <= at.spec_day_number() <= dates.1.spec_day_number()),
        period == Period::Month && in_calendar(at.spec_day_number() as int) && at.spec_day_number()
            < MAX_DAY_NUMBER - 30 ==> r is Some,
{
    let at_n = at.day_number();
    match period {
        Period::Week => {
            match days_from_monday(at_n) {
                Some(w) => {
                    let start = at_n - w as i32;
                    proof {
                        assert(weekday_from_monday(start as int) == 0) by (nonlinear_arith)
                            requires
                                start == at_n - w,
                                w == (at_n - 1) % 7,
                        ;
                    }
                    Some((CalendarDate::from_day_number(start), CalendarDate::from_day_number(start + 6)))
                },
                None => None,
            }
        },
        Period::Month => {
            match year_month_of(at_n) {
                Some(ym) => {
                    let (year, month) = ym;
                    proof {
                        lemma_month_unique((year as int, month as int), year_month(at_n as int), at_n as int);
                        lemma_next_month_start(year as int, month as int);
                        assert(ymd_day_number(MAX_YEAR as int, 12, 1) == MAX_DAY_NUMBER - 30);
                    }
                    let next = if month == 12 {
                        if year < i32::MAX {
                            day_number_of_ymd(year + 1, 1, 1)
                        } else {
                            None
                        }
                    } else {
                        day_number_of_ymd(year, month + 1, 1)
                    };
                    match (day_number_of_ymd(year, month, 1), next) {
                        (Some(start), Some(next_start)) => {
                            if next_start == i32::MIN {
                                return None;
                            }
                            Some((CalendarDate::from_day_number(start), CalendarDate::from_day_number(next_start - 1)))
                        },
                        _ => None,
                    }
                },
                None => None,
            }
        },
    }
}

/// The day number of the local calendar date of `instant` in timezone
/// `offset`; `None` when the shifted instant leaves chrono's range.
pub open spec fn spec_local_day_number(instant: UtcTimestamp, offset: TimeZoneOffset) -> Option<i32> {
    let local = instant.spec_millis() + offset.spec_minutes() * 60_000;
    if MIN_TIMESTAMP_MILLIS <= local <= MAX_TIMESTAMP_MILLIS {
        Some(utc_day_number_of(local) as i32)
    } else {
        None
    }
}

/// The local calendar date of `instant` in timezone `offset`.
pub fn local_date(instant: &UtcTimestamp, offset: &TimeZoneOffset) -> (r: Option<CalendarDate>)
    ensures
        spec_local_day_number(*instant, *offset) matches Some(n) ==> (r matches Some(d)
            && d.spec_day_number() == n),
        spec_local_day_number(*instant, *offset) is None ==> r is None,
        MIN_TIMESTAMP_MILLIS <= instant.spec_millis() + offset.spec_minutes() * 60_000
            <= MAX_TIMESTAMP_MILLIS ==> r is Some,
{
    let millis = instant.value();
    let minutes = offset.minutes() as i64;
    let local = millis + minutes * 60_000;
    if local < MIN_TIMESTAMP_MILLIS || local > MAX_TIMESTAMP_MILLIS {
        return None;
    }
    match utc_day_number(local) {
        Some(n) => Some(CalendarDate::from_day_number(n)),
        None => None,
    }
}

} // verus!
