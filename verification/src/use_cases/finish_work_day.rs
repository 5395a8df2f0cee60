//! `/finish_day`: closes the day, forcing closed an interval left open.
use vstd::prelude::*;

use crate::error::DomainError;
use crate::hour_interval::{HourInterval, HourIntervalView, SuccessfulCount};
use crate::hour_interval_state::{spec_successful_count, HourIntervalState};
use crate::ids::TaskId;
use crate::ten_min_check::{CheckStatus, TenMinCheck, TenMinCheckView};
use crate::text::{decimal_text, i64_to_decimal, owned, push_text};
use crate::time_calculations::{daily_norm_progress, NOMINAL_WORK_DAY_INTERVALS};
use crate::use_cases::errors::{NotifierError, RepoError};
use crate::use_cases::support::{
    classify_all, classify_checks, in_start_order, is_rest_check, is_total_time,
    lemma_classification_shape, spec_classify, spec_is_rest_check, total_time_by_task,
    MAX_INTERVALS_IN_TOTAL,
};
use crate::value_objects::{Duration, UtcTimestamp};
use crate::work_day::{WorkDay, WorkDayView};

verus! {

/// Why `/finish_day` failed.
#[derive(Debug, Clone, PartialEq, Eq)]
pub enum FinishWorkDayError {
    /// The day is already finished.
    AlreadyFinished,
    Domain(DomainError),
    Repo(RepoError),
    Notifier(NotifierError),
}

/// What a finished day amounts to: closed intervals out of eight, time per
/// task, and lunch on a line of its own (not part of the norm).
#[derive(Debug, Clone, PartialEq, Eq)]
pub struct WorkDayFinishSummary {
    pub closed_intervals: u8,
    pub norm_met: bool,
    pub task_totals: Vec<(TaskId, Duration)>,
    pub lunch_duration: Option<Duration>,
}

/// Number of closed intervals.
pub open spec fn count_closed(intervals: Seq<HourInterval>) -> nat
    decreases intervals.len(),
{
    if intervals.len() == 0 {
        0
    } else {
        count_closed(intervals.drop_last()) + if intervals.last()@.ended_at is Some {
            1nat
        } else {
            0nat
        }
    }
}

/// The closed-interval count as the day reports it: kept in a byte.
pub open spec fn spec_closed_count(intervals: Seq<HourInterval>) -> u8 {
    (count_closed(intervals) % 256) as u8
}

/// Number of closed intervals, kept in a byte as the day counts them.
pub fn closed_interval_count(intervals: &Vec<HourInterval>) -> (n: u8)
    ensures
        n == spec_closed_count(intervals@),
{
    let mut closed: usize = 0;
    let mut i: usize = 0;
    while i < intervals.len()
        invariant
            i <= intervals@.len(),
            closed == count_closed(intervals@.take(i as int)),
            closed <= i,
        decreases intervals@.len() - i,
    {
        proof {
            assert(intervals@.take(i as int + 1).drop_last() =~= intervals@.take(i as int));
        }
        if intervals[i].ended_at().is_some() {
            closed = closed + 1;
        }
        i = i + 1;
    }
    proof {
        assert(intervals@.take(i as int) =~= intervals@);
    }
    (closed % 256) as u8
}

/// Length of the lunch, when it was both started and ended.
pub open spec fn spec_lunch_millis(day: WorkDayView) -> Option<int> {
    match (day.lunch_started_at, day.lunch_ended_at) {
        (Some(started), Some(ended)) => Some(ended.spec_millis() - started.spec_millis()),
        _ => None,
    }
}

/// Text sent to the user when the day is finished.
pub open spec fn finish_message(closed: u8, norm_met: bool) -> Seq<char> {
    "День завершён: "@ + decimal_text(closed as nat) + "/8 интервалов"@ + if norm_met {
        ", норма выполнена"@
    } else {
        Seq::empty()
    }
}

/// Position `i` holds the first interval still running.
pub open spec fn is_first_open_interval(intervals: Seq<HourInterval>, i: int) -> bool {
    &&& 0 <= i < intervals.len()
    &&& intervals[i]@.ended_at is None
    &&& forall|k: int| 0 <= k < i ==> (#[trigger] intervals[k])@.ended_at is Some
}

/// The first interval still running, if any.
pub open spec fn first_open_interval(intervals: Seq<HourInterval>) -> Option<int> {
    if exists|i: int| is_first_open_interval(intervals, i) {
        Some(choose|i: int| is_first_open_interval(intervals, i))
    } else {
        None
    }
}

/// Position `i` holds the first check still open.
pub open spec fn is_first_open_check(checks: Seq<TenMinCheck>, i: int) -> bool {
    &&& 0 <= i < checks.len()
    &&& checks[i]@.ended_at is None
    &&& forall|k: int| 0 <= k < i ==> (#[trigger] checks[k])@.ended_at is Some
}

/// The first check still open, if any.
pub open spec fn first_open_check(checks: Seq<TenMinCheck>) -> Option<int> {
    if exists|i: int| is_first_open_check(checks, i) {
        Some(choose|i: int| is_first_open_check(checks, i))
    } else {
        None
    }
}

/// The open check `check` of an interval whose checks are `siblings`,
/// forced closed at `now`.
pub open spec fn forced_view(check: TenMinCheck, siblings: Seq<TenMinCheck>, now: UtcTimestamp) -> TenMinCheckView {
    TenMinCheckView {
        ended_at: Some(now),
        status: if spec_is_rest_check(check@.id, siblings) {
            check@.status
        } else {
            CheckStatus::NoResponse
        },
        reason: None,
        ..check@
    }
}

/// `closed` is `interval` closed at `now` after its checks `checks`.
pub open spec fn is_forced_interval(closed: HourIntervalView, interval: HourIntervalView, checks: Seq<TenMinCheck>, now: UtcTimestamp) -> bool {
    &&& closed.id == interval.id
    &&& closed.work_day_id == interval.work_day_id
    &&& closed.started_at == interval.started_at
    &&& closed.ended_at == Some(now)
    &&& closed.successful_count.spec_value() == spec_successful_count(spec_classify(checks).closed_work_statuses)
    &&& closed.summary is None
}

/// `summary` sums up `day` from its intervals and the checks of each.
pub open spec fn is_finish_summary(
    summary: WorkDayFinishSummary,
    day: WorkDay,
    intervals: Seq<HourInterval>,
    checks: Seq<Vec<TenMinCheck>>,
) -> bool {
    &&& summary.closed_intervals == spec_closed_count(intervals)
    &&& summary.norm_met == (spec_closed_count(intervals) >= NOMINAL_WORK_DAY_INTERVALS)
    &&& is_total_time(classify_all(checks), summary.task_totals@)
    &&& match spec_lunch_millis(day@) {
        Some(m) => summary.lunch_duration matches Some(d) && d.spec_millis() == m,
        None => summary.lunch_duration is None,
    }
}

/// Everything `/finish_day` changes and reports: the open check forced
/// closed and the open interval closed (to store), the intervals and checks
/// of the day after that, the finished day, its summary and the text.
#[derive(Debug)]
pub struct FinishPlan {
    pub work_day: WorkDay,
    pub closed_check: Option<TenMinCheck>,
    pub closed_interval: Option<HourInterval>,
    pub intervals: Vec<HourInterval>,
    pub checks: Vec<Vec<TenMinCheck>>,
    pub summary: WorkDayFinishSummary,
    pub message: String,
}

/// The first interval still running.
fn find_open_interval(intervals: &Vec<HourInterval>) -> (r: Option<usize>)
    ensures
        r == match first_open_interval(intervals@) {
            Some(i) => Some(i as usize),
            None => None::<usize>,
        },
        r matches Some(i) ==> is_first_open_interval(intervals@, i as int),
{
    let mut i: usize = 0;
    while i < intervals.len()
        invariant
            i <= intervals@.len(),
            forall|k: int| 0 <= k < i ==> (#[trigger] intervals@[k])@.ended_at is Some,
        decreases intervals@.len() - i,
    {
        if intervals[i].ended_at().is_none() {
            proof {
                assert(is_first_open_interval(intervals@, i as int));
                let c = choose|c: int| is_first_open_interval(intervals@, c);
                if c < i {
                    assert(intervals@[c]@.ended_at is Some);
                } else if c > i {
                    assert(intervals@[i as int]@.ended_at is Some);
                }
            }
            return Some(i);
        }
        i = i + 1;
    }
    proof {
        assert(!exists|c: int| is_first_open_interval(intervals@, c)) by {
            if exists|c: int| is_first_open_interval(intervals@, c) {
                let c = choose|c: int| is_first_open_interval(intervals@, c);
                assert(intervals@[c]@.ended_at is Some);
            }
        }
    }
    None
}

/// The first check still open.
fn find_open_check(checks: &Vec<TenMinCheck>) -> (r: Option<usize>)
    ensures
        r == match first_open_check(checks@) {
            Some(i) => Some(i as usize),
            None => None::<usize>,
        },
        r matches Some(i) ==> is_first_open_check(checks@, i as int),
{
    let mut i: usize = 0;
    while i < checks.len()
        invariant
            i <= checks@.len(),
            forall|k: int| 0 <= k < i ==> (#[trigger] checks@[k])@.ended_at is Some,
        decreases checks@.len() - i,
    {
        if checks[i].ended_at().is_none() {
            proof {
                assert(is_first_open_check(checks@, i as int));
                let c = choose|c: int| is_first_open_check(checks@, c);
                if c < i {
                    assert(checks@[c]@.ended_at is Some);
                } else if c > i {
                    assert(checks@[i as int]@.ended_at is Some);
                }
            }
            return Some(i);
        }
        i = i + 1;
    }
    proof {
        assert(!exists|c: int| is_first_open_check(checks@, c)) by {
            if exists|c: int| is_first_open_check(checks@, c) {
                let c = choose|c: int| is_first_open_check(checks@, c);
                assert(checks@[c]@.ended_at is Some);
            }
        }
    }
    None
}

/// Closes a day. An interval still open is forced closed first the way
/// `FinishHourInterval` closes one, without a summary: an open work check
/// closes as `NoResponse` with its actual length, an open rest check closes
/// with its actual length and status, and an interval awaiting resume has
/// nothing left to close.
pub struct FinishWorkDay;

impl FinishWorkDay {
    pub fn new() -> (u: Self) {
        FinishWorkDay
    }

    /// The day to finish: a missing day is not found, a finished one refuses.
    pub fn check_day(&self, work_day: Option<WorkDay>) -> (r: Result<WorkDay, FinishWorkDayError>)
        ensures
            work_day is None ==> r == Err::<WorkDay, FinishWorkDayError>(
                FinishWorkDayError::Repo(RepoError::NotFound),
            ),
            work_day matches Some(d) ==> (d@.finished_at is Some ==> r == Err::<
                WorkDay,
                FinishWorkDayError,
            >(FinishWorkDayError::AlreadyFinished)) && (d@.finished_at is None ==> r == Ok::<
                WorkDay,
                FinishWorkDayError,
            >(d)),
    {
        match work_day {
            None => Err(FinishWorkDayError::Repo(RepoError::NotFound)),
            Some(day) => {
                if day.finished_at().is_some() {
                    Err(FinishWorkDayError::AlreadyFinished)
                } else {
                    Ok(day)
                }
            },
        }
    }

    /// The open check of an interval, forced closed at `now`: the rest check
    /// keeps its status, a work check becomes `NoResponse`; neither gets a
    /// reason, and both end now (actual, not nominal, length).
    pub fn force_close_check(&self, open_check: &TenMinCheck, siblings: &Vec<TenMinCheck>, now: UtcTimestamp) -> (c: TenMinCheck)
        ensures
            c@ == (TenMinCheckView {
                ended_at: Some(now),
                status: if spec_is_rest_check(open_check@.id, siblings@) {
                    open_check@.status
                } else {
                    CheckStatus::NoResponse
                },
                reason: None,
                ..open_check@
            }),
    {
        let status = if is_rest_check(open_check.id(), siblings) {
            open_check.status()
        } else {
            CheckStatus::NoResponse
        };
        TenMinCheck::new(
            open_check.id(),
            open_check.hour_interval_id(),
            open_check.task_id(),
            open_check.started_at(),
            Some(now),
            status,
            None,
        )
    }

    /// The interval closed at `now` with the successful count of its closed
    /// work checks and no summary. The count is at most five, so it is always
    /// a valid successful count.
    pub fn close_interval(&self, interval: &HourInterval, checks: &Vec<TenMinCheck>, now: UtcTimestamp) -> (h: HourInterval)
        ensures
            h@.id == interval@.id,
            h@.work_day_id == interval@.work_day_id,
            h@.started_at == interval@.started_at,
            h@.ended_at == Some(now),
            h@.successful_count.spec_value() == spec_successful_count(
                spec_classify(checks@).closed_work_statuses,
            ),
            h@.summary is None,
    {
        let classified = classify_checks(checks);
        proof {
            lemma_classification_shape(in_start_order(checks@));
            crate::hour_interval_state::lemma_count_worked_bounded(classified.closed_work_statuses@);
        }
        let count = HourIntervalState::successful_count(classified.closed_work_statuses.as_slice());
        let successful = match SuccessfulCount::new(count) {
            Ok(c) => c,
            Err(_) => SuccessfulCount::zero(),
        };
        HourInterval::new(interval.id(), interval.work_day_id(), interval.started_at(), Some(now), successful, None)
    }

    /// Finishes the day at `now`. `checks[i]` are the checks of
    /// `intervals[i]`, in any order. Gives the finished day, the summary and
    /// the text to send: closed intervals (of all intervals of the day), the
    /// norm, the time per task over all intervals and the lunch length.
    pub fn finish(
        &self,
        work_day: &WorkDay,
        intervals: &Vec<HourInterval>,
        checks: &Vec<Vec<TenMinCheck>>,
        now: UtcTimestamp,
    ) -> (r: (WorkDay, WorkDayFinishSummary, String))
        requires
            checks@.len() <= MAX_INTERVALS_IN_TOTAL,
        ensures
            r.0@ == (WorkDayView { finished_at: Some(now), ..work_day@ }),
            r.1.closed_intervals == spec_closed_count(intervals@),
            r.1.norm_met == (spec_closed_count(intervals@) >= NOMINAL_WORK_DAY_INTERVALS),
            is_total_time(classify_all(checks@), r.1.task_totals@),
            spec_lunch_millis(work_day@) matches Some(m) ==> (r.1.lunch_duration matches Some(d)
                && d.spec_millis() == m),
            spec_lunch_millis(work_day@) is None ==> r.1.lunch_duration is None,
            r.2@ == finish_message(r.1.closed_intervals, r.1.norm_met),
    {
        let closed_intervals = closed_interval_count(intervals);
        let task_totals = total_time_by_task(checks);
        let lunch_duration = match (work_day.lunch_started_at(), work_day.lunch_ended_at()) {
            (Some(started), Some(ended)) => Some(ended.duration_since(&started)),
            _ => None,
        };
        let finished = WorkDay::new(
            work_day.id(),
            work_day.user_id(),
            work_day.started_at(),
            Some(now),
            work_day.lunch_started_at(),
            work_day.lunch_ended_at(),
        );
        let progress = daily_norm_progress(closed_intervals);
        let mut text = owned("День завершён: ");
        let count_text = i64_to_decimal(progress.closed_intervals as i64);
        push_text(&mut text, count_text.as_str());
        push_text(&mut text, "/8 интервалов");
        if progress.norm_met {
            push_text(&mut text, ", норма выполнена");
        }
        proof {
            assert(text@ =~= finish_message(progress.closed_intervals, progress.norm_met));
        }
        let summary = WorkDayFinishSummary {
            closed_intervals: progress.closed_intervals,
            norm_met: progress.norm_met,
            task_totals,
            lunch_duration,
        };
        (finished, summary, text)
    }

    /// Finishes the day at `now` from all its intervals and the checks of
    /// each (`checks[i]` of `intervals[i]`, in any order): a missing day is
    /// not found and a finished one refuses; otherwise the first interval
    /// still running is forced closed (its first open check first, see
    /// `force_close_check`), and the day is summed up over the intervals and
    /// checks as they are after that.
    pub fn execute(
        &self,
        work_day: Option<WorkDay>,
        intervals: Vec<HourInterval>,
        checks: Vec<Vec<TenMinCheck>>,
        now: UtcTimestamp,
    ) -> (r: Result<FinishPlan, FinishWorkDayError>)
        requires
            checks@.len() == intervals@.len(),
            checks@.len() <= MAX_INTERVALS_IN_TOTAL,
        ensures
            work_day is None ==> r == Err::<FinishPlan, FinishWorkDayError>(
                FinishWorkDayError::Repo(RepoError::NotFound),
            ),
            work_day matches Some(d) && d@.finished_at is Some ==> r == Err::<FinishPlan, FinishWorkDayError>(
                FinishWorkDayError::AlreadyFinished,
            ),
            work_day matches Some(d) ==> (d@.finished_at is None ==> (r matches Ok(p) && {
                &&& p.work_day@ == (WorkDayView { finished_at: Some(now), ..d@ })
                &&& p.intervals@.len() == intervals@.len()
                &&& p.checks@.len() == checks@.len()
                &&& is_finish_summary(p.summary, d, p.intervals@, p.checks@)
                &&& p.message@ == finish_message(p.summary.closed_intervals, p.summary.norm_met)
                &&& match first_open_interval(intervals@) {
                    None => {
                        &&& p.closed_interval is None
                        &&& p.closed_check is None
                        &&& p.intervals@ == intervals@
                        &&& p.checks@ == checks@
                    },
                    Some(j) => {
                        &&& forall|i: int| 0 <= i < intervals@.len() && i != j ==> p.intervals@[i] == intervals@[i]
                        &&& forall|i: int| 0 <= i < checks@.len() && i != j ==> p.checks@[i] == checks@[i]
                        &&& p.closed_interval matches Some(h) && h@ == p.intervals@[j]@
                        &&& is_forced_interval(p.intervals@[j]@, intervals@[j]@, p.checks@[j]@, now)
                        &&& match first_open_check(checks@[j]@) {
                            None => p.closed_check is None && p.checks@[j] == checks@[j],
                            Some(k) => {
                                &&& p.checks@[j]@ == checks@[j]@.update(k, p.checks@[j]@[k])
                                &&& p.checks@[j]@[k]@ == forced_view(checks@[j]@[k], checks@[j]@, now)
                                &&& p.closed_check matches Some(c) && c@ == p.checks@[j]@[k]@
                            },
                        }
                    },
                }
            })),
    {
        let day = match self.check_day(work_day) {
            Ok(d) => d,
            Err(e) => {
                return Err(e);
            },
        };
        let mut intervals = intervals;
        let mut checks = checks;
        let ghost old_intervals = intervals@;
        let ghost old_checks = checks@;
        let mut closed_check: Option<TenMinCheck> = None;
        let mut closed_interval: Option<HourInterval> = None;
        match find_open_interval(&intervals) {
            None => {},
            Some(j) => {
                let mut inner = checks.remove(j);
                let ghost old_inner = inner@;
                proof {
                    assert(old_inner == old_checks[j as int]@);
                }
                match find_open_check(&inner) {
                    Some(k) => {
                        let forced = self.force_close_check(&inner[k], &inner, now);
                        closed_check = Some(forced.clone());
                        inner.set(k, forced);
                    },
                    None => {},
                }
                let closed = self.close_interval(&intervals[j], &inner, now);
                closed_interval = Some(closed.clone());
                intervals.set(j, closed);
                checks.insert(j, inner);
                proof {
                    assert forall|i: int| 0 <= i < old_checks.len() && i != j implies checks@[i] == old_checks[i] by {
                        if i < j {
                        } else {
                        }
                    }
                }
            },
        }
        let (finished, summary, message) = self.finish(&day, &intervals, &checks, now);
        Ok(
            FinishPlan {
                work_day: finished,
                closed_check,
                closed_interval,
                intervals,
                checks,
                summary,
                message,
            },
        )
    }
}

} // verus!
