//! The report that the day, period and CSV reports share.
use vstd::prelude::*;

use crate::calendar::{date_text, in_calendar, CalendarDate, Period};
use crate::ids::TaskId;
use crate::ordering::{is_stable_order, stable_order_by_key};
use crate::ten_min_check::CheckStatus;
use crate::text::{decimal_text, digit_char, i64_to_decimal, owned, push_char, push_text, signed_decimal_text, u64_to_decimal};
use vstd::arithmetic::div_mod::{lemma_fundamental_div_mod, lemma_fundamental_div_mod_converse};
use crate::use_cases::support::{has_total_time, is_total_time, total_task_millis, ClassifiedView};
use crate::value_objects::{truncated_minutes, Duration, UtcTimestamp};

verus! {

broadcast use vstd::seq_lib::group_seq_properties;

/// Time spent on one task.
#[derive(Debug, Clone, PartialEq, Eq)]
pub struct TaskTimeEntry {
    pub task_id: TaskId,
    pub task_title: String,
    pub duration: Duration,
}

/// A failed or silent ten-minute check.
#[derive(Debug, Clone, PartialEq, Eq)]
pub struct FailedCheckEntry {
    pub task_id: TaskId,
    pub task_title: String,
    pub status: CheckStatus,
    pub reason: Option<String>,
    pub started_at: UtcTimestamp,
}

/// The norm of one day.
#[derive(Debug, Clone, Copy, PartialEq, Eq, Structural)]
pub struct DayReportInfo {
    pub closed_intervals: u8,
    pub norm_met: bool,
}

/// The bounds and day counts of a period.
#[derive(Debug, Clone, Copy, PartialEq, Eq, Structural)]
pub struct PeriodReportInfo {
    pub period: Period,
    pub start_date: CalendarDate,
    pub end_date: CalendarDate,
    pub days_total: u32,
    pub days_with_norm_met: u32,
}

/// A report: time per task, failed checks, lunch, the summaries of closed
/// intervals, and the norm of a day or the counts of a period.
#[derive(Debug, Clone, PartialEq, Eq)]
pub struct ReportDto {
    pub task_totals: Vec<TaskTimeEntry>,
    pub failed_checks: Vec<FailedCheckEntry>,
    pub lunch_duration: Duration,
    pub interval_summaries: Vec<Option<String>>,
    pub day: Option<DayReportInfo>,
    pub period: Option<PeriodReportInfo>,
}

/// Minute of the UTC day of an instant given in milliseconds.
pub open spec fn minute_of_day(millis: int) -> int {
    (millis / 60_000) % 1440
}

/// Two decimal digits of a number below 100.
pub open spec fn two_digit_text(n: int) -> Seq<char> {
    seq![digit_char(n / 10), digit_char(n % 10)]
}

/// The UTC clock time `HH:MM` of an instant.
pub open spec fn clock_text(t: UtcTimestamp) -> Seq<char> {
    let m = minute_of_day(t.spec_millis());
    two_digit_text(m / 60) + seq![':'] + two_digit_text(m % 60)
}

/// The UTC clock time `HH:MM` of an instant, as the reports show it.
pub fn format_timestamp(t: UtcTimestamp) -> (s: String)
    ensures
        s@ == clock_text(t),
{
    let ms = t.value();
    let q: i64 = if ms >= 0 {
        ms / 60_000
    } else {
        -((59_999 - ms) / 60_000)
    };
    proof {
        if ms < 0 {
            let a = 59_999 - ms;
            lemma_fundamental_div_mod(a as int, 60_000);
            lemma_fundamental_div_mod_converse(ms as int, 60_000, q as int, 59_999 - a % 60_000);
        }
    }
    let m: i64 = if q >= 0 {
        q % 1440
    } else {
        let r = (-q) % 1440;
        if r == 0 {
            0
        } else {
            1440 - r
        }
    };
    proof {
        if q < 0 {
            let b = -q;
            lemma_fundamental_div_mod(b as int, 1440);
            let k = b / 1440;
            if b % 1440 == 0 {
                lemma_fundamental_div_mod_converse(q as int, 1440, -k, 0);
            } else {
                lemma_fundamental_div_mod_converse(q as int, 1440, -k - 1, 1440 - b % 1440);
            }
        }
        assert(m == minute_of_day(t.spec_millis()));
    }
    let h = m / 60;
    let mm = m % 60;
    let mut s = String::new();
    push_char(&mut s, ((h / 10) as u8 + 48u8) as char);
    push_char(&mut s, ((h % 10) as u8 + 48u8) as char);
    push_char(&mut s, ':');
    push_char(&mut s, ((mm / 10) as u8 + 48u8) as char);
    push_char(&mut s, ((mm % 10) as u8 + 48u8) as char);
    proof {
        assert(s@ =~= clock_text(t));
    }
    s
}

/// The label of a check status in the reports.
pub open spec fn status_label_text(status: CheckStatus) -> Seq<char> {
    match status {
        CheckStatus::Worked => "Выполнено"@,
        CheckStatus::Failed => "Провалено"@,
        CheckStatus::NoResponse => "Нет ответа"@,
    }
}

/// The label of a check status in the reports.
pub fn status_label(status: CheckStatus) -> (s: &'static str)
    ensures
        s@ == status_label_text(status),
{
    match status {
        CheckStatus::Worked => "Выполнено",
        CheckStatus::Failed => "Провалено",
        CheckStatus::NoResponse => "Нет ответа",
    }
}

/// The title given for a task, the first one listed.
pub open spec fn lookup_title(titles: Seq<(TaskId, String)>, task: TaskId) -> Option<Seq<char>>
    decreases titles.len(),
{
    if titles.len() == 0 {
        None
    } else if titles[0].0 == task {
        Some(titles[0].1@)
    } else {
        lookup_title(titles.drop_first(), task)
    }
}

/// The title shown for a task: its title, or `#` and its id when the task
/// no longer exists.
pub open spec fn title_text(titles: Seq<(TaskId, String)>, task: TaskId) -> Seq<char> {
    match lookup_title(titles, task) {
        Some(t) => t,
        None => "#"@ + signed_decimal_text(task.spec_value() as int),
    }
}

/// The title shown for a task.
pub fn title_for(titles: &Vec<(TaskId, String)>, task: TaskId) -> (t: String)
    ensures
        t@ == title_text(titles@, task),
{
    let mut i: usize = 0;
    while i < titles.len()
        invariant
            i <= titles@.len(),
            lookup_title(titles@, task) == lookup_title(titles@.subrange(i as int, titles@.len() as int), task),
        decreases titles@.len() - i,
    {
        proof {
            let rest = titles@.subrange(i as int, titles@.len() as int);
            assert(rest.drop_first() =~= titles@.subrange(i as int + 1, titles@.len() as int));
            assert(rest[0] == titles@[i as int]);
        }
        if titles[i].0 == task {
            return titles[i].1.clone();
        }
        i = i + 1;
    }
    proof {
        assert(titles@.subrange(i as int, titles@.len() as int) =~= Seq::<(TaskId, String)>::empty());
    }
    let mut text = owned("#");
    let digits = i64_to_decimal(task.value());
    push_text(&mut text, digits.as_str());
    text
}

/// `entries` are the time totals of `cs`, one per task with time, ordered
/// by task id, titled from `titles`.
pub open spec fn is_sorted_task_entries(
    cs: Seq<ClassifiedView>,
    titles: Seq<(TaskId, String)>,
    entries: Seq<TaskTimeEntry>,
) -> bool {
    &&& forall|i: int|
        0 <= i < entries.len() ==> has_total_time(cs, (#[trigger] entries[i]).task_id)
            && entries[i].duration.spec_millis() == total_task_millis(cs, entries[i].task_id)
            && entries[i].task_title@ == title_text(titles, entries[i].task_id)
    &&& forall|i: int, j: int|
        0 <= i < j < entries.len() ==> (#[trigger] entries[i]).task_id.spec_value() < (
        #[trigger] entries[j]).task_id.spec_value()
    &&& forall|task: TaskId|
        has_total_time(cs, task) ==> exists|i: int| 0 <= i < entries.len() && (#[trigger] entries[i]).task_id == task
}

/// Ids of the totals, as sort keys.
pub open spec fn id_keys(totals: Seq<(TaskId, Duration)>) -> Seq<i64> {
    totals.map_values(|e: (TaskId, Duration)| e.0.spec_value())
}

/// Different ids have different values.
proof fn lemma_id_values_differ(a: TaskId, b: TaskId)
    requires
        a != b,
    ensures
        a.spec_value() != b.spec_value(),
{
    TaskId::lemma_value_injective(a, b);
}

/// The totals as report entries, titled and ordered by task id.
pub(crate) fn sorted_task_entries(
    totals: &Vec<(TaskId, Duration)>,
    titles: &Vec<(TaskId, String)>,
    cs: Ghost<Seq<ClassifiedView>>,
) -> (entries: Vec<TaskTimeEntry>)
    requires
        is_total_time(cs@, totals@),
    ensures
        is_sorted_task_entries(cs@, titles@, entries@),
{
    let mut keys: Vec<i64> = Vec::new();
    let mut k: usize = 0;
    while k < totals.len()
        invariant
            k <= totals@.len(),
            keys@ =~= id_keys(totals@).take(k as int),
        decreases totals@.len() - k,
    {
        keys.push(totals[k].0.value());
        k = k + 1;
    }
    proof {
        assert(keys@ =~= id_keys(totals@));
    }
    let order = stable_order_by_key(&keys);
    let mut entries: Vec<TaskTimeEntry> = Vec::new();
    let mut j: usize = 0;
    while j < order.len()
        invariant
            j <= order@.len(),
            is_stable_order(id_keys(totals@), order@),
            is_total_time(cs@, totals@),
            entries@.len() == j,
            forall|q: int|
                0 <= q < j ==> (#[trigger] entries@[q]).task_id == totals@[order@[q] as int].0
                    && entries@[q].duration == totals@[order@[q] as int].1
                    && entries@[q].task_title@ == title_text(titles@, entries@[q].task_id),
        decreases order@.len() - j,
    {
        let p = order[j];
        let (task, duration) = totals[p];
        let title = title_for(titles, task);
        entries.push(TaskTimeEntry { task_id: task, task_title: title, duration });
        j = j + 1;
    }
    proof {
        assert forall|a: int, b: int| 0 <= a < b < entries@.len() implies (#[trigger] entries@[a]).task_id.spec_value()
            < (#[trigger] entries@[b]).task_id.spec_value() by {
            let pa = order@[a] as int;
            let pb = order@[b] as int;
            assert(crate::ordering::precedes(id_keys(totals@), pa, pb));
            if totals@[pa].0.spec_value() == totals@[pb].0.spec_value() {
                if pa < pb {
                    assert(totals@[pa].0 != totals@[pb].0);
                } else if pb < pa {
                    assert(totals@[pb].0 != totals@[pa].0);
                }
                lemma_id_values_differ(totals@[pa].0, totals@[pb].0);
            }
        }
        assert forall|task: TaskId| has_total_time(cs@, task) implies exists|i: int|
            0 <= i < entries@.len() && (#[trigger] entries@[i]).task_id == task by {
            let p = choose|p: int| 0 <= p < totals@.len() && (#[trigger] totals@[p]).0 == task;
            crate::ordering::lemma_stable_order_covers(id_keys(totals@), order@, p);
            let q = choose|q: int| 0 <= q < order@.len() && order@[q] == p;
            assert(entries@[q].task_id == task);
        }
    }
    entries
}

/// Lines separated by line feeds.
pub open spec fn joined_lines(lines: Seq<Seq<char>>) -> Seq<char>
    decreases lines.len(),
{
    if lines.len() == 0 {
        Seq::empty()
    } else if lines.len() == 1 {
        lines[0]
    } else {
        joined_lines(lines.drop_last()) + seq!['\n'] + lines.last()
    }
}

/// A span as hours and minutes, `1ч 20м`, each truncated toward zero.
pub open spec fn hours_minutes_text(d: Duration) -> Seq<char> {
    let m = truncated_minutes(d.spec_millis());
    let (h, r) = if m >= 0 {
        (m / 60, m % 60)
    } else {
        (-((-m) / 60), -((-m) % 60))
    };
    signed_decimal_text(h) + "ч "@ + signed_decimal_text(r) + "м"@
}

/// A date as the reports show it.
pub open spec fn date_display(d: CalendarDate) -> Seq<char> {
    if in_calendar(d.spec_day_number() as int) {
        date_text(d.spec_day_number() as int)
    } else {
        signed_decimal_text(d.spec_day_number() as int)
    }
}

pub open spec fn day_heading(info: DayReportInfo) -> Seq<char> {
    "Отчёт за день: "@ + decimal_text(info.closed_intervals as nat) + "/8 интервалов"@ + if info.norm_met {
        ", норма выполнена"@
    } else {
        Seq::empty()
    }
}

pub open spec fn period_heading(p: PeriodReportInfo) -> Seq<char> {
    let title = match p.period {
        Period::Week => "Отчёт за неделю: "@,
        Period::Month => "Отчёт за месяц: "@,
    };
    title + date_display(p.start_date) + " — "@ + date_display(p.end_date)
}

pub open spec fn period_counts(p: PeriodReportInfo) -> Seq<char> {
    "Дней: "@ + decimal_text(p.days_total as nat) + ", норма выполнена: "@ + decimal_text(p.days_with_norm_met as nat)
}

/// The first lines: the norm of a day, or the bounds and counts of a period.
pub open spec fn heading_lines(r: ReportDto) -> Seq<Seq<char>> {
    match r.day {
        Some(info) => seq![day_heading(info)],
        None => match r.period {
            Some(p) => seq![period_heading(p), period_counts(p)],
            None => Seq::empty(),
        },
    }
}

pub open spec fn task_line(e: TaskTimeEntry) -> Seq<char> {
    "  "@ + e.task_title@ + ": "@ + hours_minutes_text(e.duration)
}

pub open spec fn reason_suffix(reason: Option<String>) -> Seq<char> {
    match reason {
        Some(t) => ": "@ + t@,
        None => Seq::empty(),
    }
}

pub open spec fn failed_line(c: FailedCheckEntry) -> Seq<char> {
    "  "@ + clock_text(c.started_at) + " ["@ + c.task_title@ + "] "@ + status_label_text(c.status) + reason_suffix(c.reason)
}

pub open spec fn summary_line(number: nat, summary: Option<String>) -> Seq<char> {
    "  "@ + decimal_text(number) + ". "@ + match summary {
        Some(t) => t@,
        None => "—"@,
    }
}

pub open spec fn task_section(entries: Seq<TaskTimeEntry>) -> Seq<Seq<char>> {
    if entries.len() == 0 {
        Seq::empty()
    } else {
        seq!["Время по задачам:"@] + entries.map_values(|e: TaskTimeEntry| task_line(e))
    }
}

pub open spec fn failed_section(checks: Seq<FailedCheckEntry>) -> Seq<Seq<char>> {
    if checks.len() == 0 {
        Seq::empty()
    } else {
        seq!["Провальные десятиминутки:"@] + checks.map_values(|c: FailedCheckEntry| failed_line(c))
    }
}

pub open spec fn summary_section(summaries: Seq<Option<String>>) -> Seq<Seq<char>> {
    if summaries.len() == 0 {
        Seq::empty()
    } else {
        seq!["Итоги часов:"@] + summaries.map(|i: int, s: Option<String>| summary_line((i + 1) as nat, s))
    }
}

/// The lines of the text report: the heading; the time per task; the failed
/// checks; the lunch; the summaries of the closed intervals. A list with no
/// entries is left out with its title.
pub open spec fn report_lines(r: ReportDto) -> Seq<Seq<char>> {
    heading_lines(r) + task_section(r.task_totals@) + failed_section(r.failed_checks@) + seq![
        "Обед: "@ + hours_minutes_text(r.lunch_duration),
    ] + summary_section(r.interval_summaries@)
}

/// A span as hours and minutes.
fn hours_minutes_string(d: &Duration) -> (s: String)
    ensures
        s@ == hours_minutes_text(*d),
{
    proof {
        d.lemma_bounds();
    }
    let m = d.num_minutes();
    let (h, r) = if m >= 0 {
        (m / 60, m % 60)
    } else {
        (-((-m) / 60), -((-m) % 60))
    };
    let mut s = i64_to_decimal(h);
    push_text(&mut s, "ч ");
    let rest = i64_to_decimal(r);
    push_text(&mut s, rest.as_str());
    push_text(&mut s, "м");
    proof {
        assert(s@ =~= hours_minutes_text(*d));
    }
    s
}

/// A date as the reports show it.
fn date_string(d: &CalendarDate) -> (s: String)
    ensures
        s@ == date_display(*d),
{
    match d.to_text() {
        Some(t) => t,
        None => i64_to_decimal(d.day_number() as i64),
    }
}

/// Appends one line to the text.
fn push_line(out: &mut String, first: bool, lines: Ghost<Seq<Seq<char>>>, line: &str)
    requires
        old(out)@ == joined_lines(lines@),
        first == (lines@.len() == 0),
    ensures
        final(out)@ == joined_lines(lines@.push(line@)),
{
    if !first {
        push_char(out, '\n');
    }
    push_text(out, line);
    proof {
        assert(lines@.push(line@).drop_last() =~= lines@);
        if lines@.len() == 0 {
            assert(final(out)@ =~= line@);
        }
    }
}

fn push_heading(out: &mut String, report: &ReportDto) -> (first: bool)
    requires
        old(out)@ == joined_lines(Seq::empty()),
    ensures
        final(out)@ == joined_lines(heading_lines(*report)),
        first == (heading_lines(*report).len() == 0),
{
    let ghost lines: Seq<Seq<char>> = Seq::empty();
    match &report.day {
        Some(info) => {
            let mut h = owned("Отчёт за день: ");
            let closed = u64_to_decimal(info.closed_intervals as u64);
            push_text(&mut h, closed.as_str());
            push_text(&mut h, "/8 интервалов");
            if info.norm_met {
                push_text(&mut h, ", норма выполнена");
            }
            proof {
                assert(h@ =~= day_heading(*info));
            }
            push_line(out, true, Ghost(lines), h.as_str());
            proof {
                assert(lines.push(day_heading(*info)) =~= heading_lines(*report));
            }
            false
        },
        None => match &report.period {
            Some(p) => {
                let mut h = match p.period {
                    Period::Week => owned("Отчёт за неделю: "),
                    Period::Month => owned("Отчёт за месяц: "),
                };
                let start = date_string(&p.start_date);
                push_text(&mut h, start.as_str());
                push_text(&mut h, " — ");
                let end = date_string(&p.end_date);
                push_text(&mut h, end.as_str());
                proof {
                    assert(h@ =~= period_heading(*p));
                }
                push_line(out, true, Ghost(lines), h.as_str());
                let mut c = owned("Дней: ");
                let total = u64_to_decimal(p.days_total as u64);
                push_text(&mut c, total.as_str());
                push_text(&mut c, ", норма выполнена: ");
                let met = u64_to_decimal(p.days_with_norm_met as u64);
                push_text(&mut c, met.as_str());
                proof {
                    assert(c@ =~= period_counts(*p));
                }
                push_line(out, false, Ghost(lines.push(period_heading(*p))), c.as_str());
                proof {
                    assert(lines.push(period_heading(*p)).push(period_counts(*p)) =~= heading_lines(*report));
                }
                false
            },
            None => {
                proof {
                    assert(lines =~= heading_lines(*report));
                }
                true
            },
        },
    }
}

fn push_task_section(out: &mut String, first: bool, lines: Ghost<Seq<Seq<char>>>, entries: &Vec<TaskTimeEntry>) -> (now_first: bool)
    requires
        old(out)@ == joined_lines(lines@),
        first == (lines@.len() == 0),
    ensures
        final(out)@ == joined_lines(lines@ + task_section(entries@)),
        now_first == ((lines@ + task_section(entries@)).len() == 0),
{
    if entries.len() == 0 {
        proof {
            assert(lines@ + task_section(entries@) =~= lines@);
        }
        return first;
    }
    push_line(out, first, lines, "Время по задачам:");
    let ghost base = lines@.push("Время по задачам:"@);
    let mut i: usize = 0;
    while i < entries.len()
        invariant
            i <= entries@.len(),
            base.len() > 0,
            out@ == joined_lines(base + entries@.take(i as int).map_values(|e: TaskTimeEntry| task_line(e))),
        decreases entries@.len() - i,
    {
        let e = &entries[i];
        let mut l = owned("  ");
        push_text(&mut l, e.task_title.as_str());
        push_text(&mut l, ": ");
        let hm = hours_minutes_string(&e.duration);
        push_text(&mut l, hm.as_str());
        proof {
            assert(l@ =~= task_line(*e));
        }
        let ghost before = base + entries@.take(i as int).map_values(|e: TaskTimeEntry| task_line(e));
        push_line(out, false, Ghost(before), l.as_str());
        proof {
            assert(before.push(task_line(*e)) =~= base + entries@.take(i as int + 1).map_values(|e: TaskTimeEntry| task_line(e)));
        }
        i = i + 1;
    }
    proof {
        assert(entries@.take(i as int) =~= entries@);
        assert(base + entries@.map_values(|e: TaskTimeEntry| task_line(e)) =~= lines@ + task_section(entries@));
    }
    false
}

fn push_failed_section(out: &mut String, first: bool, lines: Ghost<Seq<Seq<char>>>, checks: &Vec<FailedCheckEntry>) -> (now_first: bool)
    requires
        old(out)@ == joined_lines(lines@),
        first == (lines@.len() == 0),
    ensures
        final(out)@ == joined_lines(lines@ + failed_section(checks@)),
        now_first == ((lines@ + failed_section(checks@)).len() == 0),
{
    if checks.len() == 0 {
        proof {
            assert(lines@ + failed_section(checks@) =~= lines@);
        }
        return first;
    }
    push_line(out, first, lines, "Провальные десятиминутки:");
    let ghost base = lines@.push("Провальные десятиминутки:"@);
    let mut j: usize = 0;
    while j < checks.len()
        invariant
            j <= checks@.len(),
            base.len() > 0,
            out@ == joined_lines(base + checks@.take(j as int).map_values(|c: FailedCheckEntry| failed_line(c))),
        decreases checks@.len() - j,
    {
        let c = &checks[j];
        let mut l = owned("  ");
        let time = format_timestamp(c.started_at);
        push_text(&mut l, time.as_str());
        push_text(&mut l, " [");
        push_text(&mut l, c.task_title.as_str());
        push_text(&mut l, "] ");
        push_text(&mut l, status_label(c.status));
        match &c.reason {
            Some(reason) => {
                push_text(&mut l, ": ");
                push_text(&mut l, reason.as_str());
            },
            None => {},
        }
        proof {
            assert(l@ =~= failed_line(*c));
        }
        let ghost before = base + checks@.take(j as int).map_values(|c: FailedCheckEntry| failed_line(c));
        push_line(out, false, Ghost(before), l.as_str());
        proof {
            assert(before.push(failed_line(*c)) =~= base + checks@.take(j as int + 1).map_values(|c: FailedCheckEntry| failed_line(c)));
        }
        j = j + 1;
    }
    proof {
        assert(checks@.take(j as int) =~= checks@);
        assert(base + checks@.map_values(|c: FailedCheckEntry| failed_line(c)) =~= lines@ + failed_section(checks@));
    }
    false
}

fn push_summary_section(out: &mut String, lines: Ghost<Seq<Seq<char>>>, summaries: &Vec<Option<String>>)
    requires
        old(out)@ == joined_lines(lines@),
        lines@.len() > 0,
    ensures
        final(out)@ == joined_lines(lines@ + summary_section(summaries@)),
{
    if summaries.len() == 0 {
        proof {
            assert(lines@ + summary_section(summaries@) =~= lines@);
        }
        return;
    }
    push_line(out, false, lines, "Итоги часов:");
    let ghost base = lines@.push("Итоги часов:"@);
    let mut k: usize = 0;
    while k < summaries.len()
        invariant
            k <= summaries@.len(),
            base.len() > 0,
            out@ == joined_lines(base + summaries@.take(k as int).map(|i: int, s: Option<String>| summary_line((i + 1) as nat, s))),
        decreases summaries@.len() - k,
    {
        let mut l = owned("  ");
        let number = u64_to_decimal(k as u64 + 1);
        push_text(&mut l, number.as_str());
        push_text(&mut l, ". ");
        match &summaries[k] {
            Some(t) => push_text(&mut l, t.as_str()),
            None => push_text(&mut l, "—"),
        }
        proof {
            assert(l@ =~= summary_line((k + 1) as nat, summaries@[k as int]));
        }
        let ghost before = base + summaries@.take(k as int).map(|i: int, s: Option<String>| summary_line((i + 1) as nat, s));
        push_line(out, false, Ghost(before), l.as_str());
        proof {
            assert(before.push(summary_line((k + 1) as nat, summaries@[k as int])) =~= base + summaries@.take(k as int + 1).map(|i: int, s: Option<String>| summary_line((i + 1) as nat, s)));
        }
        k = k + 1;
    }
    proof {
        assert(summaries@.take(k as int) =~= summaries@);
        assert(base + summaries@.map(|i: int, s: Option<String>| summary_line((i + 1) as nat, s)) =~= lines@ + summary_section(summaries@));
    }
}

impl ReportDto {
    /// The report as the text that the chat shows.
    pub fn to_text(&self) -> (text: String)
        ensures
            text@ == joined_lines(report_lines(*self)),
    {
        let mut out = String::new();
        let first = push_heading(&mut out, self);
        let ghost l1 = heading_lines(*self);
        let first = push_task_section(&mut out, first, Ghost(l1), &self.task_totals);
        let ghost l2 = l1 + task_section(self.task_totals@);
        let first = push_failed_section(&mut out, first, Ghost(l2), &self.failed_checks);
        let ghost l3 = l2 + failed_section(self.failed_checks@);
        let mut lunch = owned("Обед: ");
        let hm = hours_minutes_string(&self.lunch_duration);
        push_text(&mut lunch, hm.as_str());
        push_line(&mut out, first, Ghost(l3), lunch.as_str());
        let ghost l4 = l3.push(lunch@);
        push_summary_section(&mut out, Ghost(l4), &self.interval_summaries);
        proof {
            assert(l4 + summary_section(self.interval_summaries@) =~= report_lines(*self));
        }
        out
    }
}

} // verus!
