use workbeat::hour_interval::{HourInterval, SuccessfulCount};
use workbeat::ids::{HourIntervalId, TaskId, TenMinCheckId, WorkDayId};
use workbeat::ten_min_check::{CheckStatus, TenMinCheck};
use workbeat::use_cases::advance_open_ten_min_checks::{AdvanceOpenTenMinChecks, OpenCheckAction};
use workbeat::use_cases::config::{IdlePromptConfig, ReminderScheduleConfig};
use workbeat::use_cases::prompt_continue_if_idle::PromptContinueIfIdle;
use workbeat::use_cases::remind_awaiting_resume::RemindAwaitingResume;
use workbeat::use_cases::suggest_lunch_after_nth_interval::SuggestLunchAfterNthInterval;
use workbeat::value_objects::{Duration, TelegramId, UtcTimestamp};
use workbeat::work_day::WorkDay;

/// 2026-01-05T09:00:00Z.
fn t0() -> UtcTimestamp {
    UtcTimestamp::new(1_767_603_600_000)
}

fn after(t: UtcTimestamp, d: Duration) -> UtcTimestamp {
    t.plus(&d)
}

fn minutes(m: i64) -> Duration {
    Duration::minutes(m)
}

fn seconds(s: i64) -> Duration {
    Duration::milliseconds(s * 1000)
}

fn interval_id() -> HourIntervalId {
    HourIntervalId::new(1)
}

fn open_check(id: i64, started: UtcTimestamp) -> TenMinCheck {
    TenMinCheck::new(TenMinCheckId::new(id), interval_id(), TaskId::new(1), started, None, CheckStatus::Worked, None)
}

fn advance() -> AdvanceOpenTenMinChecks {
    AdvanceOpenTenMinChecks::new(ReminderScheduleConfig::default())
}

#[test]
fn work_slot_at_nine_minutes_does_nothing() {
    let check = open_check(1, t0());
    let action = advance().execute(&check, None, &vec![check.clone()], after(t0(), minutes(9)));
    assert!(matches!(action, OpenCheckAction::Nothing));
}

#[test]
fn work_slot_at_ten_minutes_asks_are_you_working() {
    let check = open_check(1, t0());
    let now = after(t0(), minutes(10));
    match advance().execute(&check, None, &vec![check.clone()], now) {
        OpenCheckAction::AskAreYouWorking { message, asked_at } => {
            assert_eq!(message, "Ты работаешь?");
            assert_eq!(asked_at, now);
        }
        other => panic!("unexpected action {other:?}"),
    }
}

#[test]
fn work_slot_without_answer_on_next_tick_resolves_no_response_immediately() {
    let check = open_check(1, t0());
    let siblings = vec![check.clone()];
    let asked_at = match advance().execute(&check, None, &siblings, after(t0(), minutes(10))) {
        OpenCheckAction::AskAreYouWorking { asked_at, .. } => asked_at,
        other => panic!("unexpected action {other:?}"),
    };

    match advance().execute(&check, Some(asked_at), &siblings, after(t0(), minutes(11))) {
        OpenCheckAction::ResolveNoResponse { closed } => {
            assert_eq!(closed.id(), check.id());
            assert_eq!(closed.status(), CheckStatus::NoResponse);
            assert_eq!(closed.reason(), None);
            assert_eq!(closed.started_at(), t0());
            assert_eq!(closed.ended_at(), Some(after(t0(), minutes(10))));
        }
        other => panic!("unexpected action {other:?}"),
    }
}

/// Five closed worked checks before `started_at`, then the open rest check.
fn rest_interval(started_at: UtcTimestamp) -> Vec<TenMinCheck> {
    let mut checks = Vec::new();
    for i in 0..5 {
        let s = after(started_at, minutes(-(5 - i) * 10));
        checks.push(TenMinCheck::new(
            TenMinCheckId::new(i + 1),
            interval_id(),
            TaskId::new(1),
            s,
            Some(after(s, minutes(10))),
            CheckStatus::Worked,
            None,
        ));
    }
    checks.push(open_check(6, started_at));
    checks
}

#[test]
fn rest_slot_at_nine_minutes_does_nothing() {
    let checks = rest_interval(t0());
    let action = advance().execute(&checks[5], None, &checks, after(t0(), minutes(9)));
    assert!(matches!(action, OpenCheckAction::Nothing));
}

#[test]
fn rest_slot_reminds_on_schedule_and_stays_open_until_marked_returned() {
    let checks = rest_interval(t0());
    let rest = &checks[5];

    let first_at = after(t0(), minutes(11));
    let reminded_at = match advance().execute(rest, None, &checks, first_at) {
        OpenCheckAction::RemindRestOverrun { message, reminded_at } => {
            assert_eq!(message, "Перерыв затянулся, ты вернулся?");
            reminded_at
        }
        other => panic!("unexpected action {other:?}"),
    };
    assert_eq!(reminded_at, first_at);

    // Within the burst interval there is no new reminder.
    let quiet = advance().execute(rest, Some(reminded_at), &checks, after(first_at, seconds(30)));
    assert!(matches!(quiet, OpenCheckAction::Nothing));

    // One burst interval later, a new one.
    let again = advance().execute(rest, Some(reminded_at), &checks, after(first_at, seconds(90)));
    assert!(matches!(again, OpenCheckAction::RemindRestOverrun { .. }));
}

fn user() -> TelegramId {
    TelegramId::new(1).unwrap()
}

fn idle(threshold: Duration) -> PromptContinueIfIdle {
    PromptContinueIfIdle::new(IdlePromptConfig { idle_threshold: threshold })
}

fn open_day() -> WorkDay {
    WorkDay::new(WorkDayId::new(1), user(), t0(), None, None, None)
}

#[test]
fn below_threshold_does_not_notify_or_update_last_prompt() {
    let day = open_day();
    let use_case = idle(Duration::hours(2));
    assert!(use_case.is_idle_day(&day, &Vec::new()));
    assert_eq!(use_case.execute(&day, None, &Vec::new(), after(t0(), minutes(119))), None);
}

#[test]
fn at_or_above_threshold_notifies_once_and_updates_last_prompt() {
    let day = open_day();
    let use_case = idle(Duration::hours(2));
    let first = after(t0(), Duration::hours(2));
    assert_eq!(
        use_case.execute(&day, None, &Vec::new(), first),
        Some("Готовы продолжить работу?".to_string())
    );

    // Right after, counted from the last prompt, not yet.
    assert_eq!(use_case.execute(&day, Some(first), &Vec::new(), after(first, minutes(1))), None);

    // Another threshold later, again.
    assert!(use_case
        .execute(&day, Some(first), &Vec::new(), after(first, minutes(121)))
        .is_some());
}

#[test]
fn work_day_with_active_interval_is_never_selected() {
    let day = open_day();
    let running = HourInterval::new(HourIntervalId::new(1), day.id(), t0(), None, SuccessfulCount::zero(), None);
    assert!(!idle(Duration::hours(2)).is_idle_day(&day, &vec![running]));
}

#[test]
fn idle_stretch_starts_at_the_end_of_the_last_interval() {
    let day = open_day();
    let closed = HourInterval::new(
        HourIntervalId::new(1),
        day.id(),
        t0(),
        Some(after(t0(), minutes(70))),
        SuccessfulCount::new(5).unwrap(),
        None,
    );
    let use_case = idle(Duration::hours(2));
    let intervals = vec![closed];
    assert!(use_case.is_idle_day(&day, &intervals));
    assert_eq!(use_case.idle_started_at(&day, &intervals), after(t0(), minutes(70)));
    assert_eq!(use_case.execute(&day, None, &intervals, after(t0(), minutes(189))), None);
    assert!(use_case.execute(&day, None, &intervals, after(t0(), minutes(190))).is_some());
}

fn closed_check(status: CheckStatus, reason: Option<&str>) -> TenMinCheck {
    TenMinCheck::new(
        TenMinCheckId::new(1),
        interval_id(),
        TaskId::new(1),
        t0(),
        Some(t0()),
        status,
        reason.map(|r| r.to_string()),
    )
}

fn remind() -> RemindAwaitingResume {
    RemindAwaitingResume::new(ReminderScheduleConfig::default())
}

#[test]
fn reminds_no_response_without_reason_asking_what_happened() {
    let check = closed_check(CheckStatus::NoResponse, None);
    assert_eq!(
        remind().execute(&check, None, after(t0(), minutes(1))),
        Some("Что случилось, почему не отвечаешь?".to_string())
    );
}

#[test]
fn reminds_failed_with_reason_asking_ready_to_continue() {
    let check = closed_check(CheckStatus::Failed, Some("distracted"));
    assert_eq!(remind().execute(&check, None, after(t0(), minutes(1))), Some("Готов продолжить?".to_string()));
}

#[test]
fn stops_reminding_once_next_slot_started() {
    let interval = HourInterval::new(interval_id(), WorkDayId::new(1), t0(), None, SuccessfulCount::zero(), None);
    let check = closed_check(CheckStatus::Failed, Some("distracted"));
    assert!(remind().is_awaiting(&check, &interval, &vec![check.clone()]));
    assert!(remind().execute(&check, None, after(t0(), minutes(1))).is_some());

    // The user confirmed: a new check starts on the same slot.
    let next = open_check(2, after(t0(), minutes(1)));
    assert!(!remind().is_awaiting(&check, &interval, &vec![check.clone(), next]));
}

fn closed_intervals(n: i64) -> Vec<HourInterval> {
    (0..n)
        .map(|k| {
            let start = after(t0(), minutes(70 * k));
            HourInterval::new(
                HourIntervalId::new(k + 1),
                WorkDayId::new(1),
                start,
                Some(after(start, minutes(60))),
                SuccessfulCount::new(5).unwrap(),
                None,
            )
        })
        .collect()
}

#[test]
fn does_not_suggest_before_the_fourth_closed_interval() {
    assert_eq!(SuggestLunchAfterNthInterval::new().execute(&closed_intervals(3)), None);
}

#[test]
fn suggests_lunch_exactly_on_the_fourth_closed_interval() {
    assert_eq!(
        SuggestLunchAfterNthInterval::new().execute(&closed_intervals(4)),
        Some("4 интервала позади, не пора ли пообедать?".to_string())
    );
}

#[test]
fn does_not_suggest_again_after_the_fourth() {
    assert_eq!(SuggestLunchAfterNthInterval::new().execute(&closed_intervals(5)), None);
}
