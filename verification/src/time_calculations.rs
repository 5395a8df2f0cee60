//! Nominal time arithmetic of the reports: task time, the daily norm, and
//! overruns of intervals and days.
use vstd::prelude::*;

use crate::value_objects::{Duration, MAX_DURATION_MILLIS};

verus! {

/// Nominal length of one ten-minute check, used for task time (not the
/// actual `ended_at - started_at`, which only shows in overruns).
pub const TEN_MIN_NOMINAL_MINUTES: i64 = 10;

/// Nominal length of an hour interval, for overruns.
pub const NOMINAL_INTERVAL_MINUTES: i64 = 60;

/// Number of hour intervals that make the daily norm.
pub const NOMINAL_WORK_DAY_INTERVALS: u8 = 8;

/// Milliseconds in one nominal ten-minute check.
pub open spec fn ten_min_millis() -> int {
    600_000
}

/// Task time in milliseconds: ten minutes per worked check, plus ten minutes
/// of rest when the rest was earned.
pub open spec fn spec_task_time_millis(worked_count: u8, rest_earned: bool) -> int {
    worked_count * ten_min_millis() + if rest_earned {
        ten_min_millis()
    } else {
        0
    }
}

/// Task time = worked checks (ten nominal minutes each) plus the rest (ten
/// minutes) when the interval where the task was active closed naturally.
pub fn task_time(worked_count: u8, rest_earned: bool) -> (d: Duration)
    ensures
        d.spec_millis() == spec_task_time_millis(worked_count, rest_earned),
{
    let worked = Duration::minutes(TEN_MIN_NOMINAL_MINUTES * worked_count as i64);
    let rest = if rest_earned {
        Duration::minutes(TEN_MIN_NOMINAL_MINUTES)
    } else {
        Duration::zero()
    };
    worked.plus(&rest)
}

/// The daily norm: how many of the eight hour intervals are closed.
#[derive(Debug, Clone, Copy, PartialEq, Eq, Structural)]
pub struct DailyNormProgress {
    pub closed_intervals: u8,
    pub norm_met: bool,
}

pub fn daily_norm_progress(closed_intervals: u8) -> (p: DailyNormProgress)
    ensures
        p.closed_intervals == closed_intervals,
        p.norm_met == (closed_intervals >= NOMINAL_WORK_DAY_INTERVALS),
{
    DailyNormProgress {
        closed_intervals,
        norm_met: closed_intervals >= NOMINAL_WORK_DAY_INTERVALS,
    }
}

/// Milliseconds in one nominal hour interval.
pub open spec fn nominal_interval_millis() -> int {
    3_600_000
}

/// Overrun of one interval: its actual length minus the nominal hour;
/// negative when the interval was closed early.
pub fn interval_overrun(actual_duration: Duration) -> (d: Duration)
    requires
        -MAX_DURATION_MILLIS <= actual_duration.spec_millis() - nominal_interval_millis(),
    ensures
        d.spec_millis() == actual_duration.spec_millis() - nominal_interval_millis(),
{
    proof {
        actual_duration.lemma_bounds();
    }
    actual_duration.minus(&Duration::minutes(NOMINAL_INTERVAL_MINUTES))
}

/// Sum of a sequence of spans, in milliseconds.
pub open spec fn total_millis(durations: Seq<Duration>) -> int
    decreases durations.len(),
{
    if durations.len() == 0 {
        0
    } else {
        total_millis(durations.drop_last()) + durations.last().spec_millis()
    }
}

/// Every running total of the sequence stays within the range of a span.
pub open spec fn running_totals_fit(durations: Seq<Duration>) -> bool {
    forall|k: int|
        0 <= k <= durations.len() ==> -MAX_DURATION_MILLIS <= #[trigger] total_millis(
            durations.take(k),
        ) <= MAX_DURATION_MILLIS
}

/// Overrun of a day: the sum of the overruns of its intervals.
pub fn day_overrun(interval_overruns: &[Duration]) -> (d: Duration)
    requires
        running_totals_fit(interval_overruns@),
    ensures
        d.spec_millis() == total_millis(interval_overruns@),
{
    sum_durations(interval_overruns)
}

fn sum_durations(durations: &[Duration]) -> (d: Duration)
    requires
        running_totals_fit(durations@),
    ensures
        d.spec_millis() == total_millis(durations@),
{
    let mut acc = Duration::zero();
    let mut i: usize = 0;
    proof {
        assert(durations@.take(0) =~= Seq::<Duration>::empty());
    }
    while i < durations.len()
        invariant
            i <= durations@.len(),
            running_totals_fit(durations@),
            acc.spec_millis() == total_millis(durations@.take(i as int)),
        decreases durations@.len() - i,
    {
        proof {
            assert(durations@.take(i as int + 1).drop_last() =~= durations@.take(i as int));
            assert(-MAX_DURATION_MILLIS <= total_millis(durations@.take(i as int + 1))
                <= MAX_DURATION_MILLIS);
        }
        acc = acc.plus(&durations[i]);
        i = i + 1;
    }
    proof {
        assert(durations@.take(i as int) =~= durations@);
    }
    acc
}

/// Worked time of one interval never exceeds sixty minutes: an interval
/// holds at most five worked checks of ten nominal minutes.
pub proof fn lemma_worked_time_within_interval(worked_count: u8)
    requires
        worked_count <= 5,
    ensures
        spec_task_time_millis(worked_count, false) <= nominal_interval_millis(),
{
}

/// Splitting an interval between two tasks at a task switch splits its time:
/// the first task's worked checks plus the second task's worked checks and
/// rest give the time of the whole interval.
pub proof fn lemma_task_time_splits(first: u8, second: u8)
    requires
        first + second <= 255,
    ensures
        spec_task_time_millis(first, false) + spec_task_time_millis(second, true)
            == spec_task_time_millis((first + second) as u8, true),
{
    let total = (first + second) as u8;
    assert(total == first + second);
    assert(total * 600_000 == first * 600_000 + second * 600_000) by (nonlinear_arith)
        requires
            total == first + second,
    ;
}

/// The day overrun equals the actual length of all intervals minus the
/// nominal hour for each of them.
pub proof fn lemma_day_overrun_is_actual_minus_nominal(actuals: Seq<Duration>, overruns: Seq<Duration>)
    requires
        actuals.len() == overruns.len(),
        forall|i: int|
            0 <= i < actuals.len() ==> #[trigger] overruns[i].spec_millis()
                == actuals[i].spec_millis() - nominal_interval_millis(),
    ensures
        total_millis(overruns) == total_millis(actuals) - actuals.len() * nominal_interval_millis(),
    decreases actuals.len(),
{
    if actuals.len() > 0 {
        lemma_day_overrun_is_actual_minus_nominal(actuals.drop_last(), overruns.drop_last());
    }
}

} // verus!
