//! `/report_week` and `/report_month`: the period report.
use vstd::prelude::*;

use crate::calendar::{
    local_date, period_bounds, spec_local_day_number, spec_period_bounds, CalendarDate, Period,
};
use crate::hour_interval::HourInterval;
use crate::ids::TaskId;
use crate::ten_min_check::TenMinCheck;
use crate::time_calculations::{daily_norm_progress, NOMINAL_WORK_DAY_INTERVALS};
use crate::use_cases::errors::RepoError;
use crate::use_cases::finish_work_day::{closed_interval_count, spec_closed_count, spec_lunch_millis};
use crate::use_cases::report_dto::{is_sorted_task_entries, sorted_task_entries, PeriodReportInfo, ReportDto};
use crate::use_cases::support::{
    classify_all, total_time_by_task,
    MAX_INTERVALS_IN_TOTAL,
};
use crate::user::User;
use crate::value_objects::{
    Duration, TimeZoneOffset, UtcTimestamp, MAX_DURATION_MILLIS, MAX_TIMESTAMP_MILLIS,
    MIN_TIMESTAMP_MILLIS,
};
use crate::work_day::WorkDay;

verus! {

broadcast use vstd::seq_lib::group_seq_properties;

/// Why the period report failed.
#[derive(Debug, Clone, PartialEq, Eq)]
pub enum BuildPeriodReportError {
    UserNotFound,
    Repo(RepoError),
}

/// The day number of the user's "today": `at` when given, else the local
/// date of `now` in the user's timezone.
pub open spec fn spec_local_today(tz: TimeZoneOffset, at: Option<CalendarDate>, now: UtcTimestamp) -> Option<i32> {
    match at {
        Some(d) => Some(d.spec_day_number()),
        None => spec_local_day_number(now, tz),
    }
}

/// First and last day number of the period around the user's "today".
pub open spec fn spec_period_window(
    tz: TimeZoneOffset,
    period: Period,
    at: Option<CalendarDate>,
    now: UtcTimestamp,
) -> Option<(int, int)> {
    match spec_local_today(tz, at, now) {
        Some(n) => spec_period_bounds(period, n),
        None => None,
    }
}

/// The first and the last date of the period around the user's "today"
/// (`at`, or the local date of `now`); `None` where the calendar cannot
/// place them.
pub fn period_window(tz: &TimeZoneOffset, period: Period, at: Option<CalendarDate>, now: &UtcTimestamp) -> (r: Option<(CalendarDate, CalendarDate)>)
    ensures
        spec_period_window(*tz, period, at, *now) matches Some(b) ==> (r matches Some(dates)
            && dates.0.spec_day_number() == b.0 && dates.1.spec_day_number() == b.1),
        spec_period_window(*tz, period, at, *now) is None ==> r is None,
{
    let today = match at {
        Some(d) => Some(d),
        None => local_date(now, tz),
    };
    match today {
        Some(d) => period_bounds(period, d),
        None => None,
    }
}

/// The local time of `instant` in timezone `tz` stays within the calendar's range.
pub open spec fn local_in_range(instant: UtcTimestamp, tz: TimeZoneOffset) -> bool {
    MIN_TIMESTAMP_MILLIS <= instant.spec_millis() + tz.spec_minutes() * 60_000 <= MAX_TIMESTAMP_MILLIS
}

/// The day started, in local time, within `window` (first and last day number).
pub open spec fn in_window(day: WorkDay, tz: TimeZoneOffset, window: (int, int)) -> bool {
    match spec_local_day_number(day@.started_at, tz) {
        Some(n) => window.0 <= n <= window.1,
        None => false,
    }
}

/// The checks of every interval of the days in the window, day after day.
pub open spec fn period_checks(
    days: Seq<WorkDay>,
    checks: Seq<Vec<Vec<TenMinCheck>>>,
    tz: TimeZoneOffset,
    window: (int, int),
) -> Seq<Vec<TenMinCheck>>
    decreases days.len(),
{
    if days.len() == 0 {
        Seq::empty()
    } else {
        period_checks(days.drop_last(), checks.drop_last(), tz, window) + if in_window(days.last(), tz, window) {
            checks.last()@
        } else {
            Seq::empty()
        }
    }
}

/// Number of days in the window.
pub open spec fn days_in(days: Seq<WorkDay>, tz: TimeZoneOffset, window: (int, int)) -> nat
    decreases days.len(),
{
    if days.len() == 0 {
        0
    } else {
        days_in(days.drop_last(), tz, window) + if in_window(days.last(), tz, window) {
            1nat
        } else {
            0nat
        }
    }
}

/// Number of days in the window whose closed intervals meet the norm.
pub open spec fn norm_days_in(
    days: Seq<WorkDay>,
    intervals: Seq<Vec<HourInterval>>,
    tz: TimeZoneOffset,
    window: (int, int),
) -> nat
    decreases days.len(),
{
    if days.len() == 0 {
        0
    } else {
        norm_days_in(days.drop_last(), intervals.drop_last(), tz, window) + if in_window(
            days.last(),
            tz,
            window,
        ) && spec_closed_count(intervals.last()@) >= NOMINAL_WORK_DAY_INTERVALS {
            1nat
        } else {
            0nat
        }
    }
}

/// Lunch of a day in milliseconds, 0 when it was not both started and ended.
pub open spec fn lunch_or_zero(day: WorkDay) -> int {
    match spec_lunch_millis(day@) {
        Some(m) => m,
        None => 0,
    }
}

/// Total lunch time of the days in the window, in milliseconds.
pub open spec fn lunch_in(days: Seq<WorkDay>, tz: TimeZoneOffset, window: (int, int)) -> int
    decreases days.len(),
{
    if days.len() == 0 {
        0
    } else {
        lunch_in(days.drop_last(), tz, window) + if in_window(days.last(), tz, window) {
            lunch_or_zero(days.last())
        } else {
            0
        }
    }
}

/// Sum of the magnitudes of all lunches, in milliseconds.
pub open spec fn lunch_magnitude(days: Seq<WorkDay>) -> int
    decreases days.len(),
{
    if days.len() == 0 {
        0
    } else {
        let m = lunch_or_zero(days.last());
        lunch_magnitude(days.drop_last()) + if m >= 0 {
            m
        } else {
            -m
        }
    }
}

/// Number of intervals over all days.
pub open spec fn interval_total(checks: Seq<Vec<Vec<TenMinCheck>>>) -> int
    decreases checks.len(),
{
    if checks.len() == 0 {
        0
    } else {
        interval_total(checks.drop_last()) + checks.last()@.len()
    }
}

/// `report` is the period report over `window` of the days, their intervals
/// (`intervals[i]` of `days[i]`) and the checks of each interval
/// (`checks[i][j]`), with task titles from `titles`.
pub open spec fn is_period_report(
    report: ReportDto,
    period: Period,
    window: (int, int),
    days: Seq<WorkDay>,
    intervals: Seq<Vec<HourInterval>>,
    checks: Seq<Vec<Vec<TenMinCheck>>>,
    tz: TimeZoneOffset,
    titles: Seq<(TaskId, String)>,
) -> bool {
    &&& is_sorted_task_entries(classify_all(period_checks(days, checks, tz, window)), titles, report.task_totals@)
    &&& report.failed_checks@.len() == 0
    &&& report.lunch_duration.spec_millis() == lunch_in(days, tz, window)
    &&& report.interval_summaries@.len() == 0
    &&& report.day is None
    &&& report.period matches Some(p) && {
        &&& p.period == period
        &&& p.start_date.spec_day_number() == window.0
        &&& p.end_date.spec_day_number() == window.1
        &&& p.days_total == days_in(days, tz, window)
        &&& p.days_with_norm_met == norm_days_in(days, intervals, tz, window)
    }
}

/// Of the days in a period, only some meet the norm: never more days meet
/// it than there are.
pub proof fn lemma_norm_days_within_days(
    days: Seq<WorkDay>,
    intervals: Seq<Vec<HourInterval>>,
    tz: TimeZoneOffset,
    window: (int, int),
)
    ensures
        norm_days_in(days, intervals, tz, window) <= days_in(days, tz, window),
    decreases days.len(),
{
    if days.len() > 0 {
        lemma_norm_days_within_days(days.drop_last(), intervals.drop_last(), tz, window);
    }
}

/// A day counts toward a period report exactly when its local start date
/// lies in the window: adding a day outside the window changes neither the
/// lunch total nor the number of days; adding a day inside it adds its
/// lunch (end minus start, when both were recorded) and one day.
pub proof fn lemma_period_counts_only_days_in_window(
    r1: ReportDto,
    r2: ReportDto,
    period: Period,
    window: (int, int),
    days: Seq<WorkDay>,
    intervals: Seq<Vec<HourInterval>>,
    checks: Seq<Vec<Vec<TenMinCheck>>>,
    day: WorkDay,
    day_intervals: Vec<HourInterval>,
    day_checks: Vec<Vec<TenMinCheck>>,
    tz: TimeZoneOffset,
    titles: Seq<(TaskId, String)>,
)
    requires
        is_period_report(r1, period, window, days, intervals, checks, tz, titles),
        is_period_report(
            r2,
            period,
            window,
            days.push(day),
            intervals.push(day_intervals),
            checks.push(day_checks),
            tz,
            titles,
        ),
    ensures
        ({
            let outside = match spec_local_day_number(day@.started_at, tz) {
                Some(n) => !(window.0 <= n <= window.1),
                None => true,
            };
            let day_lunch = match (day@.lunch_started_at, day@.lunch_ended_at) {
                (Some(started), Some(ended)) => ended.spec_millis() - started.spec_millis(),
                _ => 0,
            };
            &&& outside ==> r2.lunch_duration.spec_millis() == r1.lunch_duration.spec_millis()
            &&& outside ==> r2.period->0.days_total == r1.period->0.days_total
            &&& !outside ==> r2.lunch_duration.spec_millis() == r1.lunch_duration.spec_millis() + day_lunch
            &&& !outside ==> r2.period->0.days_total == r1.period->0.days_total + 1
        }),
{
    assert(days.push(day).drop_last() =~= days);
    assert(intervals.push(day_intervals).drop_last() =~= intervals);
}

/// The shape of the per-day data and the sizes that keep the sums in range.
pub open spec fn period_data_fits(
    days: Seq<WorkDay>,
    intervals: Seq<Vec<HourInterval>>,
    checks: Seq<Vec<Vec<TenMinCheck>>>,
) -> bool {
    &&& days.len() == intervals.len()
    &&& days.len() == checks.len()
    &&& days.len() <= u32::MAX
    &&& interval_total(checks) <= MAX_INTERVALS_IN_TOTAL
    &&& lunch_magnitude(days) <= MAX_DURATION_MILLIS
}

proof fn lemma_period_checks_len(
    days: Seq<WorkDay>,
    checks: Seq<Vec<Vec<TenMinCheck>>>,
    tz: TimeZoneOffset,
    window: (int, int),
)
    requires
        days.len() == checks.len(),
    ensures
        period_checks(days, checks, tz, window).len() <= interval_total(checks),
    decreases days.len(),
{
    if days.len() > 0 {
        lemma_period_checks_len(days.drop_last(), checks.drop_last(), tz, window);
    }
}

proof fn lemma_lunch_magnitude_prefix(days: Seq<WorkDay>, k: int)
    requires
        0 <= k <= days.len(),
    ensures
        lunch_magnitude(days.take(k)) <= lunch_magnitude(days),
    decreases days.len(),
{
    if k < days.len() {
        assert(days.drop_last().take(k) =~= days.take(k));
        lemma_lunch_magnitude_prefix(days.drop_last(), k);
    } else {
        assert(days.take(k) =~= days);
    }
}

/// Builds the report of a week or a month: time per task over every
/// interval of the days that started, in the user's local time, within the
/// period around the user's "today" (`at`, or the local date of `now`), the
/// number of those days and of those that met the norm, and their total
/// lunch time.
pub struct BuildPeriodReport;

impl BuildPeriodReport {
    pub fn new() -> (u: Self) {
        BuildPeriodReport
    }

    /// The period report of the user `user` (`None` when not found) from
    /// all their days, the intervals of each (`intervals[i]` of `days[i]`),
    /// the checks of each interval (`checks[i][j]`, in any order) and the
    /// titles of the tasks.
    pub fn execute(
        &self,
        user: Option<User>,
        period: Period,
        at: Option<CalendarDate>,
        now: UtcTimestamp,
        days: &Vec<WorkDay>,
        intervals: &Vec<Vec<HourInterval>>,
        checks: Vec<Vec<Vec<TenMinCheck>>>,
        titles: &Vec<(TaskId, String)>,
    ) -> (r: Result<ReportDto, BuildPeriodReportError>)
        requires
            period_data_fits(days@, intervals@, checks@),
            user matches Some(u) ==> {
                &&& forall|i: int| 0 <= i < days@.len() ==> local_in_range((#[trigger] days@[i])@.started_at, u@.timezone)
                &&& spec_period_window(u@.timezone, period, at, now) is Some
            },
        ensures
            user is None ==> r == Err::<ReportDto, BuildPeriodReportError>(BuildPeriodReportError::UserNotFound),
            user matches Some(u) ==> (r matches Ok(report) && is_period_report(
                report,
                period,
                spec_period_window(u@.timezone, period, at, now)->0,
                days@,
                intervals@,
                checks@,
                u@.timezone,
                titles@,
            )),
    {
        let u = match user {
            Some(u) => u,
            None => {
                return Err(BuildPeriodReportError::UserNotFound);
            },
        };
        let tz = u.timezone();
        let (start, end) = period_window(&tz, period, at, &now).unwrap();
        let ghost window = spec_period_window(u@.timezone, period, at, now)->0;
        let ghost all_checks = checks@;
        let mut rest = checks;
        let mut flat: Vec<Vec<TenMinCheck>> = Vec::new();
        let mut lunch = Duration::zero();
        let mut days_total: u32 = 0;
        let mut norm_days: u32 = 0;
        let mut i: usize = 0;
        while i < days.len()
            invariant
                i <= days@.len(),
                period_data_fits(days@, intervals@, all_checks),
                rest@ == all_checks.subrange(i as int, all_checks.len() as int),
                forall|k: int| 0 <= k < days@.len() ==> local_in_range((#[trigger] days@[k])@.started_at, tz),
                start.spec_day_number() == window.0,
                end.spec_day_number() == window.1,
                flat@ == period_checks(days@.take(i as int), all_checks.take(i as int), tz, window),
                days_total == days_in(days@.take(i as int), tz, window),
                days_total <= i,
                norm_days == norm_days_in(days@.take(i as int), intervals@.take(i as int), tz, window),
                norm_days <= days_total,
                lunch.spec_millis() == lunch_in(days@.take(i as int), tz, window),
                -lunch_magnitude(days@.take(i as int)) <= lunch.spec_millis() <= lunch_magnitude(
                    days@.take(i as int),
                ),
            decreases days@.len() - i,
        {
            let ghost dk = days@.take(i as int + 1);
            let ghost ck = all_checks.take(i as int + 1);
            let ghost ik = intervals@.take(i as int + 1);
            proof {
                assert(dk.drop_last() =~= days@.take(i as int));
                assert(ck.drop_last() =~= all_checks.take(i as int));
                assert(ik.drop_last() =~= intervals@.take(i as int));
                assert(dk.last() == days@[i as int]);
                assert(ck.last() == all_checks[i as int]);
                assert(ik.last() == intervals@[i as int]);
                lemma_lunch_magnitude_prefix(days@, i as int + 1);
                assert(rest@[0] == all_checks[i as int]);
            }
            let mut day_checks = rest.remove(0);
            proof {
                assert(rest@ =~= all_checks.subrange(i as int + 1, all_checks.len() as int));
            }
            let day = days[i];
            assert(local_in_range(days@[i as int]@.started_at, tz));
            let local = local_date(&day.started_at(), &tz).unwrap();
            if !(local.is_before(&start) || end.is_before(&local)) {
                assert(in_window(day, tz, window));
                flat.append(&mut day_checks);
                days_total = days_total + 1;
                let progress = daily_norm_progress(closed_interval_count(&intervals[i]));
                if progress.norm_met {
                    norm_days = norm_days + 1;
                }
                match (day.lunch_started_at(), day.lunch_ended_at()) {
                    (Some(started), Some(ended)) => {
                        let d = ended.duration_since(&started);
                        lunch = lunch.plus(&d);
                    },
                    _ => {},
                }
            } else {
                assert(!in_window(day, tz, window));
                proof {
                    assert(period_checks(dk, ck, tz, window) =~= period_checks(
                        days@.take(i as int),
                        all_checks.take(i as int),
                        tz,
                        window,
                    ));
                }
            }
            i = i + 1;
        }
        proof {
            assert(days@.take(i as int) =~= days@);
            assert(all_checks.take(i as int) =~= all_checks);
            assert(intervals@.take(i as int) =~= intervals@);
            lemma_period_checks_len(days@, all_checks, tz, window);
        }
        let totals = total_time_by_task(&flat);
        let task_totals = sorted_task_entries(&totals, titles, Ghost(classify_all(flat@)));
        Ok(
            ReportDto {
                task_totals,
                failed_checks: Vec::new(),
                lunch_duration: lunch,
                interval_summaries: Vec::new(),
                day: None,
                period: Some(
                    PeriodReportInfo {
                        period,
                        start_date: start,
                        end_date: end,
                        days_total,
                        days_with_norm_met: norm_days,
                    },
                ),
            },
        )
    }

    /// The period report for callers that cannot know beforehand whether the
    /// calendar places the period: asks `period_window` for the period around
    /// the user's "today" and, where it is found, builds the report with
    /// `execute`; where it is not, gives `None` and builds nothing. A missing
    /// user gives `Some(Err(UserNotFound))` as `execute` does.
    pub fn try_build(
        &self,
        user: Option<User>,
        period: Period,
        at: Option<CalendarDate>,
        now: UtcTimestamp,
        days: &Vec<WorkDay>,
        intervals: &Vec<Vec<HourInterval>>,
        checks: Vec<Vec<Vec<TenMinCheck>>>,
        titles: &Vec<(TaskId, String)>,
    ) -> (r: Option<Result<ReportDto, BuildPeriodReportError>>)
        requires
            period_data_fits(days@, intervals@, checks@),
            user matches Some(u) ==> forall|i: int|
                0 <= i < days@.len() ==> local_in_range((#[trigger] days@[i])@.started_at, u@.timezone),
        ensures
            user is None ==> r == Some(Err::<ReportDto, BuildPeriodReportError>(BuildPeriodReportError::UserNotFound)),
            user matches Some(u) && spec_period_window(u@.timezone, period, at, now) is None ==> r is None,
            user matches Some(u) ==> (spec_period_window(u@.timezone, period, at, now) matches Some(w) ==> (r matches Some(
                Ok(report),
            ) && is_period_report(report, period, w, days@, intervals@, checks@, u@.timezone, titles@))),
    {
        if let Some(u) = &user {
            if period_window(&u.timezone(), period, at, &now).is_none() {
                return None;
            }
        }
        Some(self.execute(user, period, at, now, days, intervals, checks, titles))
    }
}

} // verus!
