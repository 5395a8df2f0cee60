use workbeat::ids::{HourIntervalId, TaskId, TenMinCheckId};
use workbeat::ten_min_check::{CheckStatus, TenMinCheck};
use workbeat::use_cases::support::{classify_checks, ClassifiedChecks};
use workbeat::value_objects::UtcTimestamp;

/// 2026-01-05T09:00:00Z plus `slot` ten-minute slots.
fn slot_start(slot: i64) -> UtcTimestamp {
    UtcTimestamp::new(1_767_603_600_000 + slot * 600_000)
}

fn check(id: i64, slot: i64, status: CheckStatus, closed: bool) -> TenMinCheck {
    let started_at = slot_start(slot);
    let ended_at = if closed { Some(slot_start(slot + 1)) } else { None };
    TenMinCheck::new(TenMinCheckId::new(id), HourIntervalId::new(1), TaskId::new(7), started_at, ended_at, status, None)
}

/// Five worked checks with two failures between them, then the rest slot.
fn interval_checks() -> Vec<TenMinCheck> {
    vec![
        check(1, 0, CheckStatus::Worked, true),
        check(2, 1, CheckStatus::Failed, true),
        check(3, 2, CheckStatus::Worked, true),
        check(4, 3, CheckStatus::Worked, true),
        check(5, 4, CheckStatus::NoResponse, true),
        check(6, 5, CheckStatus::Worked, true),
        check(7, 6, CheckStatus::Worked, true),
        check(8, 7, CheckStatus::Worked, false),
    ]
}

fn ids(checks: &[TenMinCheck]) -> Vec<i64> {
    checks.iter().map(|c| c.id().value()).collect()
}

fn assert_same(a: &ClassifiedChecks, b: &ClassifiedChecks) {
    assert_eq!(a.closed_work_statuses, b.closed_work_statuses);
    assert_eq!(a.closed_work_checks, b.closed_work_checks);
    assert_eq!(a.rest_check, b.rest_check);
}

#[test]
fn classification_splits_work_attempts_from_the_rest_slot() {
    let classified = classify_checks(&interval_checks());
    assert_eq!(ids(&classified.closed_work_checks), vec![1, 2, 3, 4, 5, 6, 7]);
    assert_eq!(
        classified.closed_work_statuses,
        vec![
            CheckStatus::Worked,
            CheckStatus::Failed,
            CheckStatus::Worked,
            CheckStatus::Worked,
            CheckStatus::NoResponse,
            CheckStatus::Worked,
            CheckStatus::Worked,
        ]
    );
    assert_eq!(classified.rest_check.map(|c| c.id().value()), Some(8));
}

#[test]
fn classification_does_not_depend_on_the_order_of_the_checks() {
    let in_order = classify_checks(&interval_checks());
    let mut reversed = interval_checks();
    reversed.reverse();
    assert_same(&classify_checks(&reversed), &in_order);
    let mut rotated = interval_checks();
    rotated.rotate_left(3);
    assert_same(&classify_checks(&rotated), &in_order);
    let mut swapped = interval_checks();
    swapped.swap(0, 7);
    swapped.swap(2, 5);
    assert_same(&classify_checks(&swapped), &in_order);
}

#[test]
fn an_open_work_check_is_not_a_work_attempt() {
    let checks = vec![check(1, 0, CheckStatus::Worked, true), check(2, 1, CheckStatus::Worked, false)];
    let classified = classify_checks(&checks);
    assert_eq!(ids(&classified.closed_work_checks), vec![1]);
    assert_eq!(classified.rest_check, None);
}
