use workbeat::ids::{HourIntervalId, TaskId, TenMinCheckId};
use workbeat::ten_min_check::{CheckStatus, TenMinCheck};
use workbeat::use_cases::confirm_ready_to_continue::{ConfirmReadyToContinue, ConfirmReadyToContinueError};
use workbeat::use_cases::errors::RepoError;
use workbeat::use_cases::mark_returned_from_rest::{MarkReturnedFromRest, MarkReturnedFromRestError};
use workbeat::use_cases::submit_failure_reason::{SubmitFailureReason, SubmitFailureReasonError};
use workbeat::value_objects::{Duration, UtcTimestamp};
use workbeat::DomainError;

/// 2026-01-05T09:00:00Z.
fn t0() -> UtcTimestamp {
    UtcTimestamp::new(1_767_603_600_000)
}

fn after(t: UtcTimestamp, minutes: i64) -> UtcTimestamp {
    t.plus(&Duration::minutes(minutes))
}

fn interval() -> HourIntervalId {
    HourIntervalId::new(1)
}

fn task() -> TaskId {
    TaskId::new(1)
}

fn check(
    id: i64,
    started: UtcTimestamp,
    ended: Option<UtcTimestamp>,
    status: CheckStatus,
    reason: Option<&str>,
) -> TenMinCheck {
    TenMinCheck::new(TenMinCheckId::new(id), interval(), task(), started, ended, status, reason.map(|r| r.to_string()))
}

#[test]
fn creates_new_check_started_at_confirmation_moment_not_close_moment() {
    let closed_at = t0();
    let failed = check(1, closed_at, Some(closed_at), CheckStatus::Failed, Some("distracted"));
    let confirm_at = after(closed_at, 7);

    let created = ConfirmReadyToContinue::new().execute(interval(), Some(failed), Some(task()), confirm_at).unwrap();

    assert_eq!(created.started_at(), confirm_at);
    assert_ne!(created.started_at(), closed_at);
    assert_eq!(created.task_id(), task());
    assert_eq!(created.ended_at(), None);
}

#[test]
fn works_after_no_response_close_too() {
    let no_response = check(1, t0(), Some(t0()), CheckStatus::NoResponse, None);
    let created = ConfirmReadyToContinue::new().execute(interval(), Some(no_response), Some(task()), t0()).unwrap();
    assert_eq!(created.ended_at(), None);
}

#[test]
fn rejects_when_last_check_is_already_open() {
    let open = check(1, t0(), None, CheckStatus::Worked, None);
    let error = ConfirmReadyToContinue::new().execute(interval(), Some(open), Some(task()), t0()).unwrap_err();
    assert_eq!(error, ConfirmReadyToContinueError::NothingToConfirm);
}

#[test]
fn rejects_when_last_check_is_closed_worked() {
    let worked = check(1, t0(), Some(t0()), CheckStatus::Worked, None);
    let error = ConfirmReadyToContinue::new().execute(interval(), Some(worked), Some(task()), t0()).unwrap_err();
    assert_eq!(error, ConfirmReadyToContinueError::NothingToConfirm);
}

#[test]
fn confirming_without_any_check_is_not_found() {
    let error = ConfirmReadyToContinue::new().execute(interval(), None, Some(task()), t0()).unwrap_err();
    assert_eq!(error, ConfirmReadyToContinueError::Repo(RepoError::NotFound));
}

/// Five closed worked checks, then the open rest check.
fn five_worked_and_rest(start: UtcTimestamp) -> Vec<TenMinCheck> {
    let mut checks = Vec::new();
    let mut t = start;
    for i in 0..5 {
        checks.push(check(i + 1, t, Some(after(t, 10)), CheckStatus::Worked, None));
        t = after(t, 10);
    }
    checks.push(check(6, t, None, CheckStatus::Worked, None));
    checks
}

#[test]
fn closes_rest_check_with_actual_duration_even_when_overworked() {
    let checks = five_worked_and_rest(t0());
    let rest = checks[5].clone();
    let return_time = after(rest.started_at(), 30);

    let closed = MarkReturnedFromRest::new().execute(Some(rest), &checks, return_time).unwrap();

    assert_eq!(closed.ended_at(), Some(return_time));
    assert_eq!(closed.reason(), None);
    assert_eq!(closed.status(), CheckStatus::Worked);
}

#[test]
fn rejects_when_open_check_is_a_work_slot_not_rest() {
    let open = check(1, t0(), None, CheckStatus::Worked, None);
    let siblings = vec![open.clone()];
    let error = MarkReturnedFromRest::new().execute(Some(open), &siblings, t0()).unwrap_err();
    assert_eq!(error, MarkReturnedFromRestError::NoOpenRestCheck);
}

#[test]
fn rejects_when_no_open_check_at_all() {
    let error = MarkReturnedFromRest::new().execute(None, &Vec::new(), t0()).unwrap_err();
    assert_eq!(error, MarkReturnedFromRestError::NoOpenRestCheck);
}

fn no_response_check() -> TenMinCheck {
    check(1, t0(), Some(after(t0(), 10)), CheckStatus::NoResponse, None)
}

#[test]
fn appends_reason_without_touching_ended_at_or_status() {
    let before = no_response_check();
    let updated = SubmitFailureReason::new()
        .execute(Some(before.clone()), "was in a meeting".to_string())
        .unwrap();
    assert_eq!(updated.reason(), Some("was in a meeting"));
    assert_eq!(updated.ended_at(), before.ended_at());
    assert_eq!(updated.status(), CheckStatus::NoResponse);
}

#[test]
fn rejects_when_reason_already_set() {
    let use_case = SubmitFailureReason::new();
    let updated = use_case.execute(Some(no_response_check()), "was in a meeting".to_string()).unwrap();
    let error = use_case.execute(Some(updated), "another reason".to_string()).unwrap_err();
    assert_eq!(error, SubmitFailureReasonError::Domain(DomainError::ReasonAlreadySet));
}

#[test]
fn rejects_when_status_is_not_no_response() {
    let failed = check(1, t0(), Some(t0()), CheckStatus::Failed, Some("distracted"));
    let error = SubmitFailureReason::new().execute(Some(failed), "another reason".to_string()).unwrap_err();
    assert_eq!(error, SubmitFailureReasonError::Domain(DomainError::ReasonNotAllowedForStatus));
}

#[test]
fn errors_when_check_not_found() {
    let error = SubmitFailureReason::new().execute(None, "reason".to_string()).unwrap_err();
    assert_eq!(error, SubmitFailureReasonError::Repo(RepoError::NotFound));
}
