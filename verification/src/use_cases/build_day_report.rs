//! `/report`: the day report.
use vstd::prelude::*;

use crate::hour_interval::HourInterval;
use crate::ids::TaskId;
use crate::ordering::{is_stable_order, stable_order, stable_order_by_key};
use crate::ten_min_check::{opt_text, CheckStatus, TenMinCheck, TenMinCheckView};
use crate::time_calculations::{daily_norm_progress, NOMINAL_WORK_DAY_INTERVALS};
use crate::use_cases::errors::RepoError;
use crate::use_cases::finish_work_day::{
    closed_interval_count, is_finish_summary, spec_closed_count, spec_lunch_millis, WorkDayFinishSummary,
};
use crate::use_cases::report_dto::{
    is_sorted_task_entries, sorted_task_entries, title_for, title_text, DayReportInfo,
    FailedCheckEntry, ReportDto, TaskTimeEntry,
};
use crate::use_cases::support::{
    classify_all, classify_checks, has_total_time, spec_classify, total_task_millis, total_time_by_task, views,
    MAX_INTERVALS_IN_TOTAL,
};
use crate::value_objects::Duration;
use crate::work_day::WorkDay;

verus! {

broadcast use vstd::seq_lib::group_seq_properties;

/// Why the day report failed.
#[derive(Debug, Clone, PartialEq, Eq)]
pub enum BuildDayReportError {
    Repo(RepoError),
}

/// Start instants of the intervals, as sort keys.
pub open spec fn interval_keys(intervals: Seq<HourInterval>) -> Seq<i64> {
    intervals.map_values(|h: HourInterval| h@.started_at.spec_millis() as i64)
}

/// The failed or silent checks among closed work checks, in order.
pub open spec fn failures_of(checks: Seq<TenMinCheckView>) -> Seq<TenMinCheckView>
    decreases checks.len(),
{
    if checks.len() == 0 {
        Seq::empty()
    } else if checks.last().status != CheckStatus::Worked {
        failures_of(checks.drop_last()).push(checks.last())
    } else {
        failures_of(checks.drop_last())
    }
}

/// The failures of each interval, one interval after another.
pub open spec fn failures_in(checks: Seq<Vec<TenMinCheck>>) -> Seq<TenMinCheckView>
    decreases checks.len(),
{
    if checks.len() == 0 {
        Seq::empty()
    } else {
        failures_in(checks.drop_last()) + failures_of(spec_classify(checks.last()@).closed_work_checks)
    }
}

/// The summaries of the closed intervals, in order.
pub open spec fn summaries_in(intervals: Seq<HourInterval>) -> Seq<Option<Seq<char>>>
    decreases intervals.len(),
{
    if intervals.len() == 0 {
        Seq::empty()
    } else if intervals.last()@.ended_at is Some {
        summaries_in(intervals.drop_last()).push(intervals.last()@.summary)
    } else {
        summaries_in(intervals.drop_last())
    }
}

/// The failures of the day, before sorting: interval after interval in
/// start order, each interval's in start order.
pub open spec fn day_failures(intervals: Seq<HourInterval>, checks: Seq<Vec<TenMinCheck>>) -> Seq<TenMinCheckView> {
    failures_in(stable_order(interval_keys(intervals)).map_values(|p: usize| checks[p as int]))
}

/// Start instants of checks, as sort keys.
pub open spec fn view_keys(checks: Seq<TenMinCheckView>) -> Seq<i64> {
    checks.map_values(|c: TenMinCheckView| c.started_at.spec_millis() as i64)
}

/// The failures of the day sorted by start, ties in the order above.
pub open spec fn sorted_day_failures(intervals: Seq<HourInterval>, checks: Seq<Vec<TenMinCheck>>) -> Seq<TenMinCheckView> {
    let raw = day_failures(intervals, checks);
    stable_order(view_keys(raw)).map_values(|p: usize| raw[p as int])
}

/// The report entry of a failed check, titled from `titles`.
pub open spec fn is_failed_entry(entry: FailedCheckEntry, check: TenMinCheckView, titles: Seq<(TaskId, String)>) -> bool {
    &&& entry.task_id == check.task_id
    &&& entry.task_title@ == title_text(titles, check.task_id)
    &&& entry.status == check.status
    &&& opt_text(entry.reason) == check.reason
    &&& entry.started_at == check.started_at
}

/// The summaries of the closed intervals of the day, in start order.
pub open spec fn day_summaries(intervals: Seq<HourInterval>) -> Seq<Option<Seq<char>>> {
    summaries_in(stable_order(interval_keys(intervals)).map_values(|p: usize| intervals[p as int]))
}

/// The texts of optional strings.
pub open spec fn opt_texts(s: Seq<Option<String>>) -> Seq<Option<Seq<char>>> {
    s.map_values(|o: Option<String>| opt_text(o))
}

/// `report` is the report of `day` from its intervals, the checks of each
/// (`checks[i]` of `intervals[i]`) and the titles of the tasks.
pub open spec fn is_day_report(
    report: ReportDto,
    day: WorkDay,
    intervals: Seq<HourInterval>,
    checks: Seq<Vec<TenMinCheck>>,
    titles: Seq<(TaskId, String)>,
) -> bool {
    &&& is_sorted_task_entries(classify_all(checks), titles, report.task_totals@)
    &&& report.failed_checks@.len() == sorted_day_failures(intervals, checks).len()
    &&& report.failed_checks@.len() == day_failures(intervals, checks).len()
    &&& forall|i: int|
        0 <= i < report.failed_checks@.len() ==> is_failed_entry(
            #[trigger] report.failed_checks@[i],
            sorted_day_failures(intervals, checks)[i],
            titles,
        )
    &&& report.lunch_duration.spec_millis() == match spec_lunch_millis(day@) {
        Some(m) => m,
        None => 0,
    }
    &&& opt_texts(report.interval_summaries@) == day_summaries(intervals)
    &&& report.day == Some(
        DayReportInfo {
            closed_intervals: spec_closed_count(intervals),
            norm_met: spec_closed_count(intervals) >= NOMINAL_WORK_DAY_INTERVALS,
        },
    )
    &&& report.period is None
}

/// A non-worked check among the work checks is one of their failures.
proof fn lemma_failures_of_holds(closed: Seq<TenMinCheckView>, k: int)
    requires
        0 <= k < closed.len(),
        closed[k].status != CheckStatus::Worked,
    ensures
        exists|m: int| 0 <= m < failures_of(closed).len() && failures_of(closed)[m] == closed[k],
    decreases closed.len(),
{
    if k == closed.len() - 1 {
        let m = failures_of(closed.drop_last()).len() as int;
        assert(failures_of(closed)[m] == closed[k]);
    } else {
        lemma_failures_of_holds(closed.drop_last(), k);
        let m = choose|m: int|
            0 <= m < failures_of(closed.drop_last()).len() && failures_of(closed.drop_last())[m]
                == closed.drop_last()[k];
        assert(failures_of(closed)[m] == closed[k]);
    }
}

/// The failures of each interval are among the failures of all of them.
proof fn lemma_failures_in_holds(seqs: Seq<Vec<TenMinCheck>>, j: int, m: int)
    requires
        0 <= j < seqs.len(),
        0 <= m < failures_of(spec_classify(seqs[j]@).closed_work_checks).len(),
    ensures
        exists|t: int|
            0 <= t < failures_in(seqs).len() && failures_in(seqs)[t] == failures_of(
                spec_classify(seqs[j]@).closed_work_checks,
            )[m],
    decreases seqs.len(),
{
    if j == seqs.len() - 1 {
        let t = failures_in(seqs.drop_last()).len() + m;
        assert(failures_in(seqs)[t] == failures_of(spec_classify(seqs[j]@).closed_work_checks)[m]);
    } else {
        assert(seqs.drop_last()[j] == seqs[j]);
        lemma_failures_in_holds(seqs.drop_last(), j, m);
        let t = choose|t: int|
            0 <= t < failures_in(seqs.drop_last()).len() && failures_in(seqs.drop_last())[t]
                == failures_of(spec_classify(seqs[j]@).closed_work_checks)[m];
        assert(failures_in(seqs)[t] == failures_in(seqs.drop_last())[t]);
    }
}

/// Each failure of the work checks is one of them, and not a worked one.
proof fn lemma_failures_of_from(closed: Seq<TenMinCheckView>, m: int)
    requires
        0 <= m < failures_of(closed).len(),
    ensures
        exists|k: int|
            0 <= k < closed.len() && closed[k] == failures_of(closed)[m] && closed[k].status
                != CheckStatus::Worked,
    decreases closed.len(),
{
    let prev = failures_of(closed.drop_last());
    if m < prev.len() {
        lemma_failures_of_from(closed.drop_last(), m);
        let k = choose|k: int|
            0 <= k < closed.drop_last().len() && closed.drop_last()[k] == prev[m]
                && closed.drop_last()[k].status != CheckStatus::Worked;
        assert(closed[k] == closed.drop_last()[k]);
    } else {
        assert(closed[closed.len() - 1] == failures_of(closed)[m]);
    }
}

/// Each failure of all intervals is a failure of one of them.
proof fn lemma_failures_in_from(seqs: Seq<Vec<TenMinCheck>>, t: int)
    requires
        0 <= t < failures_in(seqs).len(),
    ensures
        exists|j: int, m: int|
            0 <= j < seqs.len() && 0 <= m < failures_of(spec_classify(seqs[j]@).closed_work_checks).len()
                && failures_in(seqs)[t] == failures_of(spec_classify(seqs[j]@).closed_work_checks)[m],
    decreases seqs.len(),
{
    let prev = failures_in(seqs.drop_last());
    if t < prev.len() {
        lemma_failures_in_from(seqs.drop_last(), t);
        let (j, m) = choose|j: int, m: int|
            0 <= j < seqs.drop_last().len() && 0 <= m < failures_of(
                spec_classify(seqs.drop_last()[j]@).closed_work_checks,
            ).len() && prev[t] == failures_of(spec_classify(seqs.drop_last()[j]@).closed_work_checks)[m];
        assert(seqs[j] == seqs.drop_last()[j]);
        assert(failures_in(seqs)[t] == prev[t]);
    } else {
        let j = seqs.len() - 1;
        let m = t - prev.len();
        assert(failures_in(seqs)[t] == failures_of(spec_classify(seqs[j]@).closed_work_checks)[m]);
    }
}

/// Every entry of the day report's failed checks is the entry of a closed
/// work check of one of the day's intervals that was not worked.
pub proof fn lemma_every_reported_failure_is_one(
    report: ReportDto,
    day: WorkDay,
    intervals: Seq<HourInterval>,
    checks: Seq<Vec<TenMinCheck>>,
    titles: Seq<(TaskId, String)>,
    q: int,
)
    requires
        checks.len() == intervals.len(),
        checks.len() <= MAX_INTERVALS_IN_TOTAL,
        is_day_report(report, day, intervals, checks, titles),
        0 <= q < report.failed_checks@.len(),
    ensures
        exists|i: int, k: int|
            0 <= i < checks.len() && 0 <= k < spec_classify(checks[i]@).closed_work_checks.len()
                && spec_classify(checks[i]@).closed_work_checks[k].status != CheckStatus::Worked
                && is_failed_entry(report.failed_checks@[q], spec_classify(checks[i]@).closed_work_checks[k], titles),
{
    let keys = interval_keys(intervals);
    crate::ordering::lemma_stable_order_exists(keys);
    let o = stable_order(keys);
    let ordered = o.map_values(|p: usize| checks[p as int]);
    let raw = day_failures(intervals, checks);
    let fkeys = view_keys(raw);
    assert(report.failed_checks@.len() == report.failed_checks.len());
    crate::ordering::lemma_stable_order_exists(fkeys);
    let fo = stable_order(fkeys);
    let t = fo[q] as int;
    assert(sorted_day_failures(intervals, checks)[q] == raw[t]);
    lemma_failures_in_from(ordered, t);
    let (j, m) = choose|j: int, m: int|
        0 <= j < ordered.len() && 0 <= m < failures_of(spec_classify(ordered[j]@).closed_work_checks).len()
            && raw[t] == failures_of(spec_classify(ordered[j]@).closed_work_checks)[m];
    let i = o[j] as int;
    assert(ordered[j] == checks[i]);
    lemma_failures_of_from(spec_classify(checks[i]@).closed_work_checks, m);
    let k = choose|k: int|
        0 <= k < spec_classify(checks[i]@).closed_work_checks.len() && spec_classify(checks[i]@).closed_work_checks[k]
            == failures_of(spec_classify(checks[i]@).closed_work_checks)[m]
            && spec_classify(checks[i]@).closed_work_checks[k].status != CheckStatus::Worked;
    assert(is_failed_entry(report.failed_checks@[q], spec_classify(checks[i]@).closed_work_checks[k], titles));
}

/// Every closed work check of the day that was not worked (failed or
/// silent) has its entry in the day report's failed checks: same task,
/// title, status, reason and start.
pub proof fn lemma_every_failure_is_reported(
    report: ReportDto,
    day: WorkDay,
    intervals: Seq<HourInterval>,
    checks: Seq<Vec<TenMinCheck>>,
    titles: Seq<(TaskId, String)>,
    i: int,
    k: int,
)
    requires
        checks.len() == intervals.len(),
        checks.len() <= MAX_INTERVALS_IN_TOTAL,
        is_day_report(report, day, intervals, checks, titles),
        0 <= i < checks.len(),
        0 <= k < spec_classify(checks[i]@).closed_work_checks.len(),
        spec_classify(checks[i]@).closed_work_checks[k].status != CheckStatus::Worked,
    ensures
        exists|q: int|
            0 <= q < report.failed_checks@.len() && is_failed_entry(
                #[trigger] report.failed_checks@[q],
                spec_classify(checks[i]@).closed_work_checks[k],
                titles,
            ),
{
    let c = spec_classify(checks[i]@).closed_work_checks[k];
    let keys = interval_keys(intervals);
    crate::ordering::lemma_stable_order_exists(keys);
    let o = stable_order(keys);
    crate::ordering::lemma_stable_order_covers(keys, o, i);
    let j = choose|j: int| 0 <= j < o.len() && o[j] == i;
    let ordered = o.map_values(|p: usize| checks[p as int]);
    assert(ordered[j] == checks[i]);
    lemma_failures_of_holds(spec_classify(checks[i]@).closed_work_checks, k);
    let m = choose|m: int|
        0 <= m < failures_of(spec_classify(checks[i]@).closed_work_checks).len() && failures_of(
            spec_classify(checks[i]@).closed_work_checks,
        )[m] == c;
    lemma_failures_in_holds(ordered, j, m);
    let raw = day_failures(intervals, checks);
    let t = choose|t: int| 0 <= t < raw.len() && raw[t] == c;
    let fkeys = view_keys(raw);
    assert(report.failed_checks@.len() == report.failed_checks.len());
    crate::ordering::lemma_stable_order_exists(fkeys);
    let fo = stable_order(fkeys);
    crate::ordering::lemma_stable_order_covers(fkeys, fo, t);
    let q = choose|q: int| 0 <= q < fo.len() && fo[q] == t;
    assert(sorted_day_failures(intervals, checks)[q] == c);
    assert(is_failed_entry(report.failed_checks@[q], c, titles));
}

/// Some total of `totals` is `millis` for task `task`.
pub open spec fn has_total(totals: Seq<(TaskId, Duration)>, task: TaskId, millis: int) -> bool {
    exists|k: int| 0 <= k < totals.len() && (#[trigger] totals[k]).0 == task && totals[k].1.spec_millis() == millis
}

/// Some entry of `entries` is `millis` for task `task`.
pub open spec fn has_entry(entries: Seq<TaskTimeEntry>, task: TaskId, millis: int) -> bool {
    exists|i: int|
        0 <= i < entries.len() && (#[trigger] entries[i]).task_id == task && entries[i].duration.spec_millis() == millis
}

/// The day report and the summary of `/finish_day`, taken over the same
/// intervals and checks, agree: the same time for every task, the same
/// closed-interval count and norm, the same lunch.
pub proof fn lemma_report_agrees_with_finish(
    report: ReportDto,
    summary: WorkDayFinishSummary,
    day: WorkDay,
    intervals: Seq<HourInterval>,
    checks: Seq<Vec<TenMinCheck>>,
    titles: Seq<(TaskId, String)>,
)
    requires
        is_day_report(report, day, intervals, checks, titles),
        is_finish_summary(summary, day, intervals, checks),
    ensures
        forall|i: int|
            0 <= i < report.task_totals@.len() ==> has_total(
                summary.task_totals@,
                (#[trigger] report.task_totals@[i]).task_id,
                report.task_totals@[i].duration.spec_millis(),
            ),
        forall|k: int|
            0 <= k < summary.task_totals@.len() ==> has_entry(
                report.task_totals@,
                (#[trigger] summary.task_totals@[k]).0,
                summary.task_totals@[k].1.spec_millis(),
            ),
        report.day == Some(DayReportInfo { closed_intervals: summary.closed_intervals, norm_met: summary.norm_met }),
        report.lunch_duration.spec_millis() == match summary.lunch_duration {
            Some(d) => d.spec_millis(),
            None => 0,
        },
{
    let cs = classify_all(checks);
    assert forall|i: int| 0 <= i < report.task_totals@.len() implies has_total(
        summary.task_totals@,
        (#[trigger] report.task_totals@[i]).task_id,
        report.task_totals@[i].duration.spec_millis(),
    ) by {
        let e = report.task_totals@[i];
        assert(has_total_time(cs, e.task_id));
        let k = choose|k: int| 0 <= k < summary.task_totals@.len() && (#[trigger] summary.task_totals@[k]).0 == e.task_id;
        assert(summary.task_totals@[k].1.spec_millis() == total_task_millis(cs, e.task_id));
    }
    assert forall|k: int| 0 <= k < summary.task_totals@.len() implies has_entry(
        report.task_totals@,
        (#[trigger] summary.task_totals@[k]).0,
        summary.task_totals@[k].1.spec_millis(),
    ) by {
        let t = summary.task_totals@[k];
        assert(has_total_time(cs, t.0));
        let i = choose|i: int| 0 <= i < report.task_totals@.len() && (#[trigger] report.task_totals@[i]).task_id == t.0;
        assert(report.task_totals@[i].duration.spec_millis() == total_task_millis(cs, t.0));
    }
}

/// Builds the day report: time per task, failed checks with their reasons,
/// lunch, the norm, and the summary of each closed interval. While the day
/// is open, the checks already closed in the running interval count, but
/// that interval is not closed for the norm and has no summary line.
pub struct BuildDayReport;

impl BuildDayReport {
    pub fn new() -> (u: Self) {
        BuildDayReport
    }

    /// The report of `work_day` from its intervals, the checks of each
    /// (`checks[i]` belong to `intervals[i]`, in any order) and the titles
    /// of the tasks; a missing day is not found.
    pub fn execute(
        &self,
        work_day: Option<WorkDay>,
        intervals: &Vec<HourInterval>,
        checks: &Vec<Vec<TenMinCheck>>,
        titles: &Vec<(TaskId, String)>,
    ) -> (r: Result<ReportDto, BuildDayReportError>)
        requires
            checks@.len() == intervals@.len(),
            checks@.len() <= MAX_INTERVALS_IN_TOTAL,
        ensures
            work_day is None ==> r == Err::<ReportDto, BuildDayReportError>(
                BuildDayReportError::Repo(RepoError::NotFound),
            ),
            work_day matches Some(day) ==> (r matches Ok(report) && is_day_report(
                report,
                day,
                intervals@,
                checks@,
                titles@,
            )),
    {
        let day = match work_day {
            Some(d) => d,
            None => {
                return Err(BuildDayReportError::Repo(RepoError::NotFound));
            },
        };
        let mut keys: Vec<i64> = Vec::new();
        let mut k: usize = 0;
        while k < intervals.len()
            invariant
                k <= intervals@.len(),
                keys@ =~= interval_keys(intervals@).take(k as int),
            decreases intervals@.len() - k,
        {
            keys.push(intervals[k].started_at().value());
            k = k + 1;
        }
        proof {
            assert(keys@ =~= interval_keys(intervals@));
        }
        let order = stable_order_by_key(&keys);
        let ghost ordered_checks = order@.map_values(|p: usize| checks@[p as int]);
        let ghost ordered_intervals = order@.map_values(|p: usize| intervals@[p as int]);
        let mut raw: Vec<TenMinCheck> = Vec::new();
        let mut summaries: Vec<Option<String>> = Vec::new();
        let mut j: usize = 0;
        proof {
            assert(ordered_checks.take(0) =~= Seq::<Vec<TenMinCheck>>::empty());
            assert(ordered_intervals.take(0) =~= Seq::<HourInterval>::empty());
            assert(views(raw@) =~= Seq::<TenMinCheckView>::empty());
            assert(opt_texts(summaries@) =~= Seq::<Option<Seq<char>>>::empty());
        }
        while j < order.len()
            invariant
                j <= order@.len(),
                is_stable_order(interval_keys(intervals@), order@),
                order@ == stable_order(interval_keys(intervals@)),
                checks@.len() == intervals@.len(),
                ordered_checks == order@.map_values(|p: usize| checks@[p as int]),
                ordered_intervals == order@.map_values(|p: usize| intervals@[p as int]),
                views(raw@) == failures_in(ordered_checks.take(j as int)),
                opt_texts(summaries@) == summaries_in(ordered_intervals.take(j as int)),
            decreases order@.len() - j,
        {
            let p = order[j];
            proof {
                assert(ordered_checks.take(j as int + 1).drop_last() =~= ordered_checks.take(j as int));
                assert(ordered_intervals.take(j as int + 1).drop_last() =~= ordered_intervals.take(j as int));
                assert(ordered_checks[j as int] == checks@[p as int]);
                assert(ordered_intervals[j as int] == intervals@[p as int]);
            }
            let classified = classify_checks(&checks[p]);
            let work = &classified.closed_work_checks;
            let ghost base = views(raw@);
            let mut q: usize = 0;
            proof {
                assert(work@.take(0) =~= Seq::<TenMinCheck>::empty());
                assert(base + failures_of(views(work@.take(0))) =~= base);
            }
            while q < work.len()
                invariant
                    q <= work@.len(),
                    views(raw@) == base + failures_of(views(work@.take(q as int))),
                decreases work@.len() - q,
            {
                proof {
                    assert(views(work@.take(q as int + 1)).drop_last() =~= views(work@.take(q as int)));
                    assert(views(work@.take(q as int + 1)).last() == work@[q as int]@);
                }
                if work[q].status() != CheckStatus::Worked {
                    let ghost before = raw@;
                    raw.push(work[q].clone());
                    proof {
                        assert(views(raw@) =~= views(before).push(work@[q as int]@));
                    }
                }
                q = q + 1;
            }
            proof {
                assert(work@.take(q as int) =~= work@);
                assert(views(work@) == spec_classify(checks@[p as int]@).closed_work_checks);
            }
            if intervals[p].ended_at().is_some() {
                let ghost before = summaries@;
                summaries.push(intervals[p].summary_owned());
                proof {
                    assert(opt_texts(summaries@) =~= opt_texts(before).push(intervals@[p as int]@.summary));
                }
            }
            j = j + 1;
        }
        proof {
            assert(ordered_checks.take(j as int) =~= ordered_checks);
            assert(ordered_intervals.take(j as int) =~= ordered_intervals);
        }
        let ghost raw_views = day_failures(intervals@, checks@);
        let mut fkeys: Vec<i64> = Vec::new();
        let mut m: usize = 0;
        while m < raw.len()
            invariant
                m <= raw@.len(),
                views(raw@) == raw_views,
                fkeys@ =~= view_keys(raw_views).take(m as int),
            decreases raw@.len() - m,
        {
            proof {
                assert(views(raw@)[m as int] == raw@[m as int]@);
            }
            fkeys.push(raw[m].started_at().value());
            m = m + 1;
        }
        proof {
            assert(fkeys@ =~= view_keys(raw_views));
        }
        let forder = stable_order_by_key(&fkeys);
        let ghost sorted = sorted_day_failures(intervals@, checks@);
        let mut failed_checks: Vec<FailedCheckEntry> = Vec::new();
        let mut n: usize = 0;
        while n < forder.len()
            invariant
                n <= forder@.len(),
                is_stable_order(view_keys(raw_views), forder@),
                forder@ == stable_order(view_keys(raw_views)),
                views(raw@) == raw_views,
                sorted == sorted_day_failures(intervals@, checks@),
                sorted == forder@.map_values(|p: usize| raw_views[p as int]),
                failed_checks@.len() == n,
                forall|i: int|
                    0 <= i < n ==> is_failed_entry(#[trigger] failed_checks@[i], sorted[i], titles@),
            decreases forder@.len() - n,
        {
            let p = forder[n];
            let check = &raw[p];
            proof {
                assert(views(raw@)[p as int] == raw@[p as int]@);
                assert(sorted[n as int] == raw_views[p as int]);
            }
            let entry = FailedCheckEntry {
                task_id: check.task_id(),
                task_title: title_for(titles, check.task_id()),
                status: check.status(),
                reason: check.reason_owned(),
                started_at: check.started_at(),
            };
            failed_checks.push(entry);
            n = n + 1;
        }
        let totals = total_time_by_task(checks);
        let task_totals = sorted_task_entries(&totals, titles, Ghost(classify_all(checks@)));
        let lunch_duration = match (day.lunch_started_at(), day.lunch_ended_at()) {
            (Some(started), Some(ended)) => ended.duration_since(&started),
            _ => Duration::zero(),
        };
        let progress = daily_norm_progress(closed_interval_count(intervals));
        Ok(
            ReportDto {
                task_totals,
                failed_checks,
                lunch_duration,
                interval_summaries: summaries,
                day: Some(DayReportInfo { closed_intervals: progress.closed_intervals, norm_met: progress.norm_met }),
                period: None,
            },
        )
    }
}

} // verus!
