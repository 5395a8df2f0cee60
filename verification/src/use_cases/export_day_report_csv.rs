//! The day report as a CSV table.
use vstd::prelude::*;
use vstd::string::*;
use vstd::utf8::encode_utf8;

use crate::hour_interval::HourInterval;
use crate::ids::TaskId;
use crate::ten_min_check::TenMinCheck;
use crate::text::{i64_to_decimal, owned, push_char, push_text, signed_decimal_text, u64_to_decimal, decimal_text};
use crate::use_cases::build_day_report::{is_day_report, BuildDayReport, BuildDayReportError};
use crate::use_cases::errors::RepoError;
use crate::use_cases::report_dto::{
    clock_text, format_timestamp, status_label, status_label_text, DayReportInfo,
    FailedCheckEntry, ReportDto, TaskTimeEntry,
};
use crate::value_objects::{truncated_minutes, Duration};
use crate::work_day::WorkDay;

verus! {

broadcast use vstd::seq_lib::group_seq_properties;

/// Why the CSV export failed.
#[derive(Debug, Clone, PartialEq, Eq)]
pub enum ExportDayReportCsvError {
    Repo(RepoError),
}

/// A character that forces a CSV field into quotes.
pub open spec fn is_csv_special(c: char) -> bool {
    c == ',' || c == '"' || c == '\n' || c == '\r'
}

/// The field holds a comma, a quote or a line break.
pub open spec fn needs_quoting(s: Seq<char>) -> bool {
    exists|i: int| 0 <= i < s.len() && is_csv_special(#[trigger] s[i])
}

/// The text with every quote doubled.
pub open spec fn doubled_quotes(s: Seq<char>) -> Seq<char>
    decreases s.len(),
{
    if s.len() == 0 {
        Seq::empty()
    } else {
        doubled_quotes(s.drop_last()) + if s.last() == '"' {
            seq!['"', '"']
        } else {
            seq![s.last()]
        }
    }
}

/// A field as RFC 4180 writes it: quoted, with its quotes doubled, when it
/// holds a comma, a quote or a line break; as it is otherwise.
pub open spec fn csv_field_text(s: Seq<char>) -> Seq<char> {
    if needs_quoting(s) {
        seq!['"'] + doubled_quotes(s) + seq!['"']
    } else {
        s
    }
}

/// The fields, escaped and separated by commas.
pub open spec fn joined_fields(fields: Seq<Seq<char>>) -> Seq<char>
    decreases fields.len(),
{
    if fields.len() == 0 {
        Seq::empty()
    } else if fields.len() == 1 {
        csv_field_text(fields[0])
    } else {
        joined_fields(fields.drop_last()) + seq![','] + csv_field_text(fields.last())
    }
}

/// One CSV line, ended by CR LF.
pub open spec fn csv_row_text(fields: Seq<Seq<char>>) -> Seq<char> {
    joined_fields(fields) + seq!['\r', '\n']
}

/// The lines one after another.
pub open spec fn rows_text(rows: Seq<Seq<Seq<char>>>) -> Seq<char>
    decreases rows.len(),
{
    if rows.len() == 0 {
        Seq::empty()
    } else {
        rows_text(rows.drop_last()) + csv_row_text(rows.last())
    }
}

/// The texts of strings.
pub open spec fn field_texts(fields: Seq<String>) -> Seq<Seq<char>> {
    fields.map_values(|f: String| f@)
}

/// Whole minutes of a span, as decimal text.
pub open spec fn minutes_text(d: Duration) -> Seq<char> {
    signed_decimal_text(truncated_minutes(d.spec_millis()))
}

/// The text of an optional string, empty when absent.
pub open spec fn text_or_empty(s: Option<String>) -> Seq<char> {
    match s {
        Some(t) => t@,
        None => Seq::empty(),
    }
}

pub open spec fn header_row() -> Seq<Seq<char>> {
    seq!["Раздел"@, "Задача"@, "Начало"@, "Статус"@, "Причина"@, "Минуты"@]
}

pub open spec fn task_row(e: TaskTimeEntry) -> Seq<Seq<char>> {
    seq!["Задача"@, e.task_title@, Seq::empty(), Seq::empty(), Seq::empty(), minutes_text(e.duration)]
}

pub open spec fn failed_row(c: FailedCheckEntry) -> Seq<Seq<char>> {
    seq![
        "Провал"@,
        c.task_title@,
        clock_text(c.started_at),
        status_label_text(c.status),
        text_or_empty(c.reason),
        Seq::empty(),
    ]
}

pub open spec fn lunch_row(d: Duration) -> Seq<Seq<char>> {
    seq!["Обед"@, Seq::empty(), Seq::empty(), Seq::empty(), Seq::empty(), minutes_text(d)]
}

/// The line of the interval numbered `number` (from 1).
pub open spec fn interval_row(number: nat, summary: Option<String>) -> Seq<Seq<char>> {
    seq!["Интервал"@, decimal_text(number), Seq::empty(), Seq::empty(), text_or_empty(summary), Seq::empty()]
}

pub open spec fn norm_row(info: DayReportInfo) -> Seq<Seq<char>> {
    seq![
        "Норма"@,
        Seq::empty(),
        Seq::empty(),
        if info.norm_met {
            "выполнена"@
        } else {
            "не выполнена"@
        },
        Seq::empty(),
        decimal_text(info.closed_intervals as nat),
    ]
}

/// The lines of the table: the header; a line per task; a line per failed
/// check; the lunch; a line per interval summary; the norm of a day.
pub open spec fn csv_rows(report: ReportDto) -> Seq<Seq<Seq<char>>> {
    seq![header_row()] + report.task_totals@.map_values(|e: TaskTimeEntry| task_row(e))
        + report.failed_checks@.map_values(|c: FailedCheckEntry| failed_row(c)) + seq![
        lunch_row(report.lunch_duration),
    ] + report.interval_summaries@.map(|i: int, s: Option<String>| interval_row((i + 1) as nat, s))
        + match report.day {
        Some(info) => seq![norm_row(info)],
        None => Seq::empty(),
    }
}

/// The whole table, after a byte-order mark so that spreadsheets read it as
/// UTF-8.
pub open spec fn csv_text(report: ReportDto) -> Seq<char> {
    seq!['\u{feff}'] + rows_text(csv_rows(report))
}

/// Escapes one field as RFC 4180 does.
pub fn csv_field(value: &str) -> (f: String)
    ensures
        f@ == csv_field_text(value@),
{
    let len = value.unicode_len();
    let mut special = false;
    let mut i: usize = 0;
    while i < len
        invariant
            len == value@.len(),
            i <= len,
            special <==> exists|j: int| 0 <= j < i && is_csv_special(#[trigger] value@[j]),
        decreases len - i,
    {
        let c = value.get_char(i);
        if c == ',' || c == '"' || c == '\n' || c == '\r' {
            special = true;
        }
        i = i + 1;
    }
    if !special {
        return owned(value);
    }
    let mut out = String::new();
    push_char(&mut out, '"');
    let mut k: usize = 0;
    while k < len
        invariant
            len == value@.len(),
            k <= len,
            out@ == seq!['"'] + doubled_quotes(value@.take(k as int)),
        decreases len - k,
    {
        proof {
            assert(value@.take(k as int + 1).drop_last() =~= value@.take(k as int));
        }
        let c = value.get_char(k);
        if c == '"' {
            push_char(&mut out, '"');
            push_char(&mut out, '"');
        } else {
            push_char(&mut out, c);
        }
        k = k + 1;
    }
    push_char(&mut out, '"');
    proof {
        assert(value@.take(k as int) =~= value@);
    }
    out
}

/// One CSV line of the fields, ended by CR LF.
fn csv_row(fields: &Vec<String>) -> (row: String)
    ensures
        row@ == csv_row_text(field_texts(fields@)),
{
    let mut row = String::new();
    let mut i: usize = 0;
    while i < fields.len()
        invariant
            i <= fields@.len(),
            row@ == joined_fields(field_texts(fields@).take(i as int)),
        decreases fields@.len() - i,
    {
        proof {
            assert(field_texts(fields@).take(i as int + 1).drop_last() =~= field_texts(fields@).take(i as int));
        }
        if i > 0 {
            push_char(&mut row, ',');
        }
        let field = csv_field(fields[i].as_str());
        push_text(&mut row, field.as_str());
        i = i + 1;
    }
    proof {
        assert(field_texts(fields@).take(i as int) =~= field_texts(fields@));
    }
    push_char(&mut row, '\r');
    push_char(&mut row, '\n');
    row
}

/// Six fields.
fn six(a: String, b: String, c: String, d: String, e: String, f: String) -> (v: Vec<String>)
    ensures
        field_texts(v@) == seq![a@, b@, c@, d@, e@, f@],
{
    let mut v: Vec<String> = Vec::new();
    v.push(a);
    v.push(b);
    v.push(c);
    v.push(d);
    v.push(e);
    v.push(f);
    proof {
        assert(field_texts(v@) =~= seq![a@, b@, c@, d@, e@, f@]);
    }
    v
}

/// Whole minutes of a span, as decimal text.
fn minutes_string(d: &Duration) -> (s: String)
    ensures
        s@ == minutes_text(*d),
{
    i64_to_decimal(d.num_minutes())
}

/// An optional string, empty when absent.
fn string_or_empty(s: &Option<String>) -> (t: String)
    ensures
        t@ == text_or_empty(*s),
{
    match s {
        Some(text) => text.clone(),
        None => String::new(),
    }
}

/// Appends one line to the table.
fn push_row(out: &mut String, rows: Ghost<Seq<Seq<Seq<char>>>>, fields: Vec<String>)
    requires
        old(out)@ == seq!['\u{feff}'] + rows_text(rows@),
    ensures
        final(out)@ == seq!['\u{feff}'] + rows_text(rows@.push(field_texts(fields@))),
{
    let row = csv_row(&fields);
    push_text(out, row.as_str());
    proof {
        assert(rows@.push(field_texts(fields@)).drop_last() =~= rows@);
    }
}

/// The table of a report, as UTF-8 bytes.
pub fn render_csv(report: &ReportDto) -> (bytes: Vec<u8>)
    ensures
        bytes@ == encode_utf8(csv_text(*report)),
{
    let mut out = String::new();
    push_char(&mut out, '\u{feff}');
    let ghost mut rows: Seq<Seq<Seq<char>>> = Seq::empty();
    push_row(
        &mut out,
        Ghost(rows),
        six(
            owned("Раздел"),
            owned("Задача"),
            owned("Начало"),
            owned("Статус"),
            owned("Причина"),
            owned("Минуты"),
        ),
    );
    proof {
        rows = rows.push(header_row());
    }
    let ghost after_header = rows;
    let mut i: usize = 0;
    while i < report.task_totals.len()
        invariant
            i <= report.task_totals@.len(),
            rows == after_header + report.task_totals@.take(i as int).map_values(|e: TaskTimeEntry| task_row(e)),
            out@ == seq!['\u{feff}'] + rows_text(rows),
        decreases report.task_totals@.len() - i,
    {
        let entry = &report.task_totals[i];
        let fields = six(
            owned("Задача"),
            entry.task_title.clone(),
            String::new(),
            String::new(),
            String::new(),
            minutes_string(&entry.duration),
        );
        push_row(&mut out, Ghost(rows), fields);
        proof {
            rows = rows.push(task_row(*entry));
            assert(report.task_totals@.take(i as int + 1).map_values(|e: TaskTimeEntry| task_row(e)) =~= report.task_totals@.take(i as int).map_values(|e: TaskTimeEntry| task_row(e)).push(task_row(*entry)));
        }
        i = i + 1;
    }
    proof {
        assert(report.task_totals@.take(i as int) =~= report.task_totals@);
    }
    let ghost after_tasks = rows;
    let mut j: usize = 0;
    while j < report.failed_checks.len()
        invariant
            j <= report.failed_checks@.len(),
            rows == after_tasks + report.failed_checks@.take(j as int).map_values(|c: FailedCheckEntry| failed_row(c)),
            out@ == seq!['\u{feff}'] + rows_text(rows),
        decreases report.failed_checks@.len() - j,
    {
        let check = &report.failed_checks[j];
        let mut label = String::new();
        push_text(&mut label, status_label(check.status));
        let fields = six(
            owned("Провал"),
            check.task_title.clone(),
            format_timestamp(check.started_at),
            label,
            string_or_empty(&check.reason),
            String::new(),
        );
        push_row(&mut out, Ghost(rows), fields);
        proof {
            rows = rows.push(failed_row(*check));
            assert(report.failed_checks@.take(j as int + 1).map_values(|c: FailedCheckEntry| failed_row(c)) =~= report.failed_checks@.take(j as int).map_values(|c: FailedCheckEntry| failed_row(c)).push(failed_row(*check)));
        }
        j = j + 1;
    }
    proof {
        assert(report.failed_checks@.take(j as int) =~= report.failed_checks@);
    }
    let lunch = six(
        owned("Обед"),
        String::new(),
        String::new(),
        String::new(),
        String::new(),
        minutes_string(&report.lunch_duration),
    );
    push_row(&mut out, Ghost(rows), lunch);
    proof {
        rows = rows.push(lunch_row(report.lunch_duration));
    }
    let ghost after_lunch = rows;
    let mut k: usize = 0;
    while k < report.interval_summaries.len()
        invariant
            k <= report.interval_summaries@.len(),
            rows == after_lunch + report.interval_summaries@.take(k as int).map(|i: int, s: Option<String>| interval_row((i + 1) as nat, s)),
            out@ == seq!['\u{feff}'] + rows_text(rows),
        decreases report.interval_summaries@.len() - k,
    {
        let number = u64_to_decimal(k as u64 + 1);
        let fields = six(
            owned("Интервал"),
            number,
            String::new(),
            String::new(),
            string_or_empty(&report.interval_summaries[k]),
            String::new(),
        );
        push_row(&mut out, Ghost(rows), fields);
        proof {
            rows = rows.push(interval_row((k + 1) as nat, report.interval_summaries@[k as int]));
            assert(report.interval_summaries@.take(k as int + 1).map(|i: int, s: Option<String>| interval_row((i + 1) as nat, s)) =~= report.interval_summaries@.take(k as int).map(|i: int, s: Option<String>| interval_row((i + 1) as nat, s)).push(interval_row((k + 1) as nat, report.interval_summaries@[k as int])));
        }
        k = k + 1;
    }
    proof {
        assert(report.interval_summaries@.take(k as int) =~= report.interval_summaries@);
    }
    match &report.day {
        Some(info) => {
            let verdict = if info.norm_met {
                owned("выполнена")
            } else {
                owned("не выполнена")
            };
            let fields = six(
                owned("Норма"),
                String::new(),
                String::new(),
                verdict,
                String::new(),
                u64_to_decimal(info.closed_intervals as u64),
            );
            push_row(&mut out, Ghost(rows), fields);
            proof {
                rows = rows.push(norm_row(*info));
            }
        },
        None => {},
    }
    proof {
        assert(rows =~= csv_rows(*report));
    }
    let text = out.as_str();
    let raw = text.as_bytes();
    let mut bytes: Vec<u8> = Vec::new();
    let mut b: usize = 0;
    while b < raw.len()
        invariant
            b <= raw@.len(),
            bytes@ == raw@.take(b as int),
        decreases raw@.len() - b,
    {
        bytes.push(raw[b]);
        b = b + 1;
    }
    proof {
        assert(raw@.take(b as int) =~= raw@);
    }
    bytes
}

/// Exports the day report as a CSV table: the report that `BuildDayReport`
/// builds, written as CSV bytes.
pub struct ExportDayReportCsv;

impl ExportDayReportCsv {
    pub fn new() -> (u: Self) {
        ExportDayReportCsv
    }

    /// The CSV bytes of the report of `work_day` (a missing day is not
    /// found), from its intervals, the checks of each and the task titles.
    pub fn execute(
        &self,
        work_day: Option<WorkDay>,
        intervals: &Vec<HourInterval>,
        checks: &Vec<Vec<TenMinCheck>>,
        titles: &Vec<(TaskId, String)>,
    ) -> (r: Result<Vec<u8>, ExportDayReportCsvError>)
        requires
            checks@.len() == intervals@.len(),
            checks@.len() <= crate::use_cases::support::MAX_INTERVALS_IN_TOTAL,
        ensures
            work_day is None ==> r == Err::<Vec<u8>, ExportDayReportCsvError>(
                ExportDayReportCsvError::Repo(RepoError::NotFound),
            ),
            work_day matches Some(day) ==> (r matches Ok(bytes) && exists|report: ReportDto|
                is_day_report(report, day, intervals@, checks@, titles@) && bytes@ == encode_utf8(
                    #[trigger] csv_text(report),
                )),
    {
        match BuildDayReport::new().execute(work_day, intervals, checks, titles) {
            Ok(report) => {
                let bytes = render_csv(&report);
                proof {
                    assert(is_day_report(report, work_day->0, intervals@, checks@, titles@));
                    assert(bytes@ == encode_utf8(csv_text(report)));
                }
                Ok(bytes)
            },
            Err(BuildDayReportError::Repo(e)) => Err(ExportDayReportCsvError::Repo(e)),
        }
    }
}

} // verus!
