use workbeat::calendar::CalendarDate;
use workbeat::decisions::{
    IdlePromptDecision, LunchSuggestionDecision, ReminderScheduleDecision, WorkSlotPollDecision,
    WorkSlotPollOutcome,
};
use workbeat::hour_interval::{HourInterval, SuccessfulCount};
use workbeat::hour_interval_state::HourIntervalState;
use workbeat::ids::{HourIntervalId, TaskId, TenMinCheckId, WorkDayId};
use workbeat::task::{Task, TaskPriority, TaskStatus};
use workbeat::ten_min_check::{CheckStatus, TenMinCheck};
use workbeat::ten_min_check_state::{append_reason_to_no_response, TenMinCheckAnswer, TenMinCheckState};
use workbeat::time_calculations::{
    daily_norm_progress, day_overrun, interval_overrun, task_time, TEN_MIN_NOMINAL_MINUTES,
};
use workbeat::user::User;
use workbeat::value_objects::{Duration, TelegramId, TimeZoneOffset, UtcTimestamp};
use workbeat::work_day::WorkDay;
use workbeat::DomainError;

/// 2026-01-01T00:00:00Z.
const JAN_1_2026_MILLIS: i64 = 1_767_225_600_000;

fn now() -> UtcTimestamp {
    UtcTimestamp::new(JAN_1_2026_MILLIS)
}

#[test]
fn ids_roundtrip_their_value() {
    assert_eq!(TaskId::new(7).value(), 7);
    assert_eq!(WorkDayId::from(3).value(), 3);
    assert_eq!(HourIntervalId::new(1).value(), 1);
    assert_eq!(TenMinCheckId::new(9).value(), 9);
}

#[test]
fn telegram_id_rejects_non_positive_values() {
    assert_eq!(TelegramId::new(0), Err(DomainError::InvalidTelegramId(0)));
    assert_eq!(TelegramId::new(-1), Err(DomainError::InvalidTelegramId(-1)));
}

#[test]
fn telegram_id_accepts_positive_values() {
    let id = TelegramId::new(42).unwrap();
    assert_eq!(id.value(), 42);
}

#[test]
fn timezone_offset_accepts_boundaries() {
    assert!(TimeZoneOffset::new(-12 * 60).is_ok());
    assert!(TimeZoneOffset::new(14 * 60).is_ok());
}

#[test]
fn timezone_offset_rejects_out_of_range() {
    assert!(TimeZoneOffset::new(-12 * 60 - 1).is_err());
    assert!(TimeZoneOffset::new(14 * 60 + 1).is_err());
}

#[test]
fn timezone_offset_default_is_utc() {
    assert_eq!(TimeZoneOffset::default(), TimeZoneOffset::utc());
    assert_eq!(TimeZoneOffset::utc().minutes(), 0);
}

#[test]
fn successful_count_accepts_zero_to_five() {
    for value in 0..=5u8 {
        assert!(SuccessfulCount::new(value).is_ok());
    }
}

#[test]
fn successful_count_rejects_more_than_five() {
    assert_eq!(SuccessfulCount::new(6), Err(DomainError::InvalidSuccessfulCount(6)));
}

#[test]
fn constructs_hour_interval() {
    let interval = HourInterval::new(
        HourIntervalId::new(1),
        WorkDayId::new(1),
        now(),
        None,
        SuccessfulCount::zero(),
        None,
    );

    assert_eq!(interval.successful_count().value(), 0);
    assert_eq!(interval.ended_at(), None);
    assert_eq!(interval.summary(), None);
}

#[test]
fn constructs_hour_interval_with_summary() {
    let interval = HourInterval::new(
        HourIntervalId::new(1),
        WorkDayId::new(1),
        now(),
        Some(now()),
        SuccessfulCount::new(5).unwrap(),
        Some("wrote the report".to_string()),
    );

    assert_eq!(interval.summary(), Some("wrote the report"));
}

#[test]
fn all_combinations_of_zero_to_five_successful() {
    for successful in 0u8..=5 {
        let statuses: Vec<CheckStatus> = (0..successful).map(|_| CheckStatus::Worked).collect();

        assert_eq!(HourIntervalState::successful_count(&statuses), successful);
        let expected_closed = successful == 5;
        assert_eq!(HourIntervalState::is_work_stage_closed(&statuses), expected_closed);
        assert_eq!(HourIntervalState::is_rest_owed(&statuses), expected_closed);
        assert_eq!(HourIntervalState::is_next_slot_rest(&statuses), expected_closed);
    }
}

#[test]
fn failures_interleaved_with_successes_still_close_work_stage_at_five_worked() {
    let statuses = [
        CheckStatus::Worked,
        CheckStatus::Failed,
        CheckStatus::Worked,
        CheckStatus::Worked,
        CheckStatus::NoResponse,
        CheckStatus::Worked,
        CheckStatus::Worked,
    ];

    assert_eq!(HourIntervalState::successful_count(&statuses), 5);
    assert!(HourIntervalState::is_work_stage_closed(&statuses));
    assert!(HourIntervalState::is_rest_owed(&statuses));
}

#[test]
fn six_worked_checks_do_not_close_the_work_stage() {
    let statuses = [CheckStatus::Worked; 6];

    assert_eq!(HourIntervalState::successful_count(&statuses), 6);
    assert!(!HourIntervalState::is_work_stage_closed(&statuses));
    assert!(!HourIntervalState::is_rest_owed(&statuses));
    assert!(!HourIntervalState::is_next_slot_rest(&statuses));
}

#[test]
fn single_no_response_fails_exactly_one_slot_without_resetting_progress() {
    let statuses = [CheckStatus::Worked, CheckStatus::Worked, CheckStatus::NoResponse];

    assert_eq!(HourIntervalState::successful_count(&statuses), 2);
    assert!(!HourIntervalState::is_work_stage_closed(&statuses));
}

#[test]
fn forced_finish_before_five_successful_leaves_work_stage_open_and_no_rest() {
    let statuses = [CheckStatus::Worked, CheckStatus::Worked];

    assert_eq!(HourIntervalState::successful_count(&statuses), 2);
    assert!(!HourIntervalState::is_work_stage_closed(&statuses));
    assert!(!HourIntervalState::is_rest_owed(&statuses));
}

#[test]
fn suggests_exactly_on_the_fourth_closed_interval() {
    assert!(!LunchSuggestionDecision::decide(3));
    assert!(LunchSuggestionDecision::decide(4));
    assert!(!LunchSuggestionDecision::decide(5));
}

#[test]
fn does_not_suggest_again_later_in_the_day() {
    for closed in [6u8, 7, 8, 9] {
        assert!(!LunchSuggestionDecision::decide(closed));
    }
}

#[test]
fn pending_answer_yes_closes_as_worked() {
    assert_eq!(
        TenMinCheckState::Pending.submit_answer(TenMinCheckAnswer::Yes),
        Ok(TenMinCheckState::Closed(CheckStatus::Worked))
    );
}

#[test]
fn pending_answer_no_closes_as_failed() {
    assert_eq!(
        TenMinCheckState::Pending.submit_answer(TenMinCheckAnswer::No),
        Ok(TenMinCheckState::Closed(CheckStatus::Failed))
    );
}

#[test]
fn pending_resolves_no_response_on_silence() {
    assert_eq!(
        TenMinCheckState::Pending.resolve_no_response(),
        Ok(TenMinCheckState::Closed(CheckStatus::NoResponse))
    );
}

#[test]
fn closed_state_rejects_further_answers_and_resolutions() {
    for status in [CheckStatus::Worked, CheckStatus::Failed, CheckStatus::NoResponse] {
        let closed = TenMinCheckState::Closed(status);
        assert_eq!(
            closed.submit_answer(TenMinCheckAnswer::Yes),
            Err(DomainError::TenMinCheckAlreadyClosed)
        );
        assert_eq!(closed.resolve_no_response(), Err(DomainError::TenMinCheckAlreadyClosed));
    }
}

#[test]
fn reason_can_be_appended_only_to_no_response_without_existing_reason() {
    assert_eq!(append_reason_to_no_response(CheckStatus::NoResponse, None), Ok(()));
}

#[test]
fn reason_append_rejected_for_worked_or_failed_status() {
    assert_eq!(
        append_reason_to_no_response(CheckStatus::Worked, None),
        Err(DomainError::ReasonNotAllowedForStatus)
    );
    assert_eq!(
        append_reason_to_no_response(CheckStatus::Failed, None),
        Err(DomainError::ReasonNotAllowedForStatus)
    );
}

#[test]
fn reason_append_rejected_if_already_set() {
    assert_eq!(
        append_reason_to_no_response(CheckStatus::NoResponse, Some("was afk")),
        Err(DomainError::ReasonAlreadySet)
    );
}

#[test]
fn below_threshold_is_false() {
    let threshold = Duration::hours(2);
    assert!(!IdlePromptDecision::decide(threshold.minus(&Duration::minutes(1)), threshold));
}

#[test]
fn at_or_above_threshold_is_true() {
    let threshold = Duration::hours(2);
    assert!(IdlePromptDecision::decide(threshold, threshold));
    assert!(IdlePromptDecision::decide(threshold.plus(&Duration::hours(1)), threshold));
}

#[test]
fn table_driven_burst_window_boundaries() {
    let burst_window = Duration::minutes(5);
    let burst_interval = Duration::minutes(1);
    let steady_interval = Duration::minutes(5);
    let seconds = |s: i64| Duration::milliseconds(s * 1000);

    let cases = [
        (seconds(30), Duration::minutes(2), false),
        (Duration::minutes(1), Duration::minutes(2), true),
        (Duration::minutes(1), burst_window, false),
        (Duration::minutes(5), burst_window, true),
        (Duration::minutes(1), burst_window.minus(&seconds(1)), true),
        (Duration::minutes(4), Duration::minutes(30), false),
        (Duration::minutes(5), Duration::minutes(30), true),
    ];

    for (since_last, since_wait, expected) in cases {
        assert_eq!(
            ReminderScheduleDecision::decide(
                since_last,
                since_wait,
                burst_window,
                burst_interval,
                steady_interval,
            ),
            expected,
            "elapsed_since_wait_started={:?}",
            since_wait
        );
    }
}

#[test]
fn constructs_task_with_optional_fields_none() {
    let task = Task::new(
        TaskId::new(1),
        TelegramId::new(123).unwrap(),
        "Write report".to_string(),
        TaskStatus::Ready,
        None,
        None,
        now(),
    )
    .unwrap();

    assert_eq!(task.title(), "Write report");
    assert_eq!(task.status(), TaskStatus::Ready);
    assert_eq!(task.priority(), None);
    assert_eq!(task.deadline(), None);
}

#[test]
fn constructs_task_with_priority_and_deadline() {
    let deadline = CalendarDate::from_ymd(2026, 12, 31).unwrap();

    let task = Task::new(
        TaskId::new(1),
        TelegramId::new(123).unwrap(),
        "Ship MVP".to_string(),
        TaskStatus::InProgress,
        Some(TaskPriority::High),
        Some(deadline),
        now(),
    )
    .unwrap();

    assert_eq!(task.priority(), Some(TaskPriority::High));
    assert_eq!(task.deadline(), Some(deadline));
}

#[test]
fn task_rejects_empty_title() {
    let result = Task::new(
        TaskId::new(1),
        TelegramId::new(123).unwrap(),
        "   ".to_string(),
        TaskStatus::Ready,
        None,
        None,
        now(),
    );

    assert_eq!(result, Err(DomainError::EmptyTaskTitle));
}

#[test]
fn constructs_worked_check_without_reason() {
    let check = TenMinCheck::new(
        TenMinCheckId::new(1),
        HourIntervalId::new(1),
        TaskId::new(1),
        now(),
        None,
        CheckStatus::Worked,
        None,
    );

    assert_eq!(check.status(), CheckStatus::Worked);
    assert_eq!(check.reason(), None);
    assert_eq!(check.task_id(), TaskId::new(1));
}

#[test]
fn constructs_failed_check_with_reason() {
    let check = TenMinCheck::new(
        TenMinCheckId::new(2),
        HourIntervalId::new(1),
        TaskId::new(1),
        now(),
        None,
        CheckStatus::Failed,
        Some("distracted".to_string()),
    );

    assert_eq!(check.status(), CheckStatus::Failed);
    assert_eq!(check.reason(), Some("distracted"));
}

#[test]
fn checks_in_same_interval_can_reference_different_tasks() {
    let first = TenMinCheck::new(
        TenMinCheckId::new(3),
        HourIntervalId::new(1),
        TaskId::new(1),
        now(),
        None,
        CheckStatus::Worked,
        None,
    );
    let second = TenMinCheck::new(
        TenMinCheckId::new(4),
        HourIntervalId::new(1),
        TaskId::new(2),
        now(),
        None,
        CheckStatus::Worked,
        None,
    );

    assert_eq!(first.hour_interval_id(), second.hour_interval_id());
    assert_ne!(first.task_id(), second.task_id());
}

#[test]
fn all_combinations_of_zero_to_five_successful_yield_correct_task_time_and_rest_flag() {
    for successful in 0u8..=5 {
        let statuses: Vec<CheckStatus> = (0..successful).map(|_| CheckStatus::Worked).collect();
        let rest_owed = HourIntervalState::is_rest_owed(&statuses);

        let expected_minutes = i64::from(successful) * TEN_MIN_NOMINAL_MINUTES
            + if rest_owed { TEN_MIN_NOMINAL_MINUTES } else { 0 };

        assert_eq!(task_time(successful, rest_owed), Duration::minutes(expected_minutes));
        assert_eq!(rest_owed, successful == 5);
    }
}

#[test]
fn task_time_splits_correctly_across_two_tasks_after_mid_interval_switch() {
    let first_task_time = task_time(2, false);
    let second_task_time = task_time(3, true);

    assert_eq!(first_task_time, Duration::minutes(20));
    assert_eq!(second_task_time, Duration::minutes(40));
    assert_eq!(first_task_time.plus(&second_task_time), Duration::minutes(60));
}

#[test]
fn overworked_rest_does_not_change_task_time_or_require_reason() {
    assert_eq!(task_time(5, true), Duration::minutes(60));
}

#[test]
fn daily_norm_progress_table() {
    for closed in 0u8..=9 {
        let progress = daily_norm_progress(closed);
        assert_eq!(progress.closed_intervals, closed);
        assert_eq!(progress.norm_met, closed >= 8);
    }
}

#[test]
fn interval_overrun_is_zero_at_nominal_duration() {
    assert_eq!(interval_overrun(Duration::minutes(60)), Duration::zero());
}

#[test]
fn interval_overrun_is_positive_when_longer_than_nominal() {
    assert_eq!(interval_overrun(Duration::minutes(150)), Duration::minutes(90));
}

#[test]
fn interval_overrun_is_negative_when_forced_finish_before_nominal() {
    assert_eq!(interval_overrun(Duration::minutes(20)), Duration::minutes(-40));
}

#[test]
fn day_overrun_sums_interval_overruns() {
    let overruns = [
        Duration::minutes(90).minus(&Duration::minutes(60)),
        Duration::zero(),
        Duration::minutes(45).minus(&Duration::minutes(60)),
    ];

    assert_eq!(day_overrun(&overruns), Duration::minutes(15));
}

#[test]
fn worked_time_within_interval_never_exceeds_sixty_minutes() {
    for successful_count in 0u8..=5 {
        let worked = task_time(successful_count, false);
        assert!(!Duration::minutes(60).is_less_than(&worked));
    }
}

#[test]
fn constructs_user_and_exposes_fields() {
    let telegram_id = TelegramId::new(123).unwrap();
    let timezone = TimeZoneOffset::new(180).unwrap();
    let created_at = now();

    let user = User::new(telegram_id, timezone, created_at);

    assert_eq!(user.telegram_id(), telegram_id);
    assert_eq!(user.timezone(), timezone);
    assert_eq!(user.created_at(), created_at);
}

#[test]
fn constructs_open_work_day_with_no_finish_or_lunch() {
    let work_day = WorkDay::new(WorkDayId::new(1), TelegramId::new(123).unwrap(), now(), None, None, None);

    assert_eq!(work_day.finished_at(), None);
    assert_eq!(work_day.lunch_started_at(), None);
    assert_eq!(work_day.lunch_ended_at(), None);
}

#[test]
fn table_driven_outcomes() {
    let cases = [
        (Duration::minutes(0), false, WorkSlotPollOutcome::NoActionYet),
        (Duration::minutes(9), false, WorkSlotPollOutcome::NoActionYet),
        (Duration::minutes(10), false, WorkSlotPollOutcome::AskAreYouWorking),
        (Duration::minutes(11), true, WorkSlotPollOutcome::ResolveNoResponse),
        (Duration::minutes(59), true, WorkSlotPollOutcome::ResolveNoResponse),
    ];

    for (elapsed, already_prompted, expected) in cases {
        assert_eq!(
            WorkSlotPollDecision::decide(elapsed, already_prompted),
            expected,
            "elapsed={elapsed:?} already_prompted={already_prompted}"
        );
    }
}

#[test]
fn already_prompted_always_resolves_no_response_even_before_threshold() {
    assert_eq!(
        WorkSlotPollDecision::decide(Duration::minutes(10), true),
        WorkSlotPollOutcome::ResolveNoResponse
    );
}

#[test]
fn the_zero_count_is_the_count_of_zero() {
    assert_eq!(SuccessfulCount::zero(), SuccessfulCount::new(0).unwrap());
}

#[test]
fn the_default_offset_is_utc() {
    assert_eq!(TimeZoneOffset::default(), TimeZoneOffset::utc());
}
