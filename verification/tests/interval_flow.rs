use workbeat::hour_interval::{HourInterval, SuccessfulCount};
use workbeat::ids::{HourIntervalId, TaskId, TenMinCheckId, WorkDayId};
use workbeat::task::{Task, TaskStatus};
use workbeat::ten_min_check::{CheckStatus, TenMinCheck};
use workbeat::ten_min_check_state::TenMinCheckAnswer;
use workbeat::use_cases::advance_open_ten_min_checks::{AdvanceOpenTenMinChecks, OpenCheckAction};
use workbeat::use_cases::config::ReminderScheduleConfig;
use workbeat::use_cases::confirm_ready_to_continue::ConfirmReadyToContinue;
use workbeat::use_cases::day_commands::StartHourInterval;
use workbeat::use_cases::finish_hour_interval::{FinishHourInterval, FinishHourIntervalError};
use workbeat::use_cases::mark_returned_from_rest::MarkReturnedFromRest;
use workbeat::use_cases::submit_failure_reason::SubmitFailureReason;
use workbeat::use_cases::submit_ten_min_answer::{NextSlot, SubmitTenMinAnswer, SubmitTenMinAnswerError};
use workbeat::use_cases::errors::RepoError;
use workbeat::use_cases::task_commands::{
    find_in_progress_task, MarkTaskInProgress, SwitchTaskMidInterval, SwitchTaskMidIntervalError,
};
use workbeat::value_objects::{Duration, TelegramId, UtcTimestamp};

/// 2026-01-05T09:00:00Z.
fn t0() -> UtcTimestamp {
    UtcTimestamp::new(1_767_603_600_000)
}

fn after(t: UtcTimestamp, minutes: i64) -> UtcTimestamp {
    t.plus(&Duration::minutes(minutes))
}

fn with_check_id(draft: &TenMinCheck, id: i64) -> TenMinCheck {
    TenMinCheck::new(
        TenMinCheckId::new(id),
        draft.hour_interval_id(),
        draft.task_id(),
        draft.started_at(),
        draft.ended_at(),
        draft.status(),
        draft.reason_owned(),
    )
}

/// One work day with one interval, its checks and the user's tasks, as
/// storage would keep them between commands.
struct Flow {
    interval: HourInterval,
    checks: Vec<TenMinCheck>,
    tasks: Vec<Task>,
    next_check_id: i64,
    messages: Vec<String>,
    now: UtcTimestamp,
}

impl Flow {
    fn new(titles: &[&str]) -> Flow {
        let tasks = titles
            .iter()
            .enumerate()
            .map(|(k, title)| {
                Task::new(
                    TaskId::new(k as i64 + 1),
                    TelegramId::new(1).unwrap(),
                    title.to_string(),
                    TaskStatus::Ready,
                    None,
                    None,
                    t0(),
                )
                .unwrap()
            })
            .collect();
        let interval = HourInterval::new(HourIntervalId::new(1), WorkDayId::new(1), t0(), None, SuccessfulCount::zero(), None);
        Flow { interval, checks: Vec::new(), tasks, next_check_id: 0, messages: Vec::new(), now: t0() }
    }

    fn advance(&mut self, minutes: i64) {
        self.now = after(self.now, minutes);
    }

    fn task(&self, id: TaskId) -> Task {
        self.tasks.iter().find(|t| t.id() == id).unwrap().clone()
    }

    fn store_task(&mut self, task: Task) {
        let pos = self.tasks.iter().position(|t| t.id() == task.id()).unwrap();
        self.tasks[pos] = task;
    }

    fn store_check(&mut self, check: TenMinCheck) {
        match self.checks.iter().position(|c| c.id() == check.id()) {
            Some(pos) => self.checks[pos] = check,
            None => self.checks.push(check),
        }
    }

    fn create_check(&mut self, draft: &TenMinCheck) -> TenMinCheck {
        self.next_check_id += 1;
        let check = with_check_id(draft, self.next_check_id);
        self.checks.push(check.clone());
        check
    }

    fn open_check(&self) -> Option<TenMinCheck> {
        self.checks.iter().find(|c| c.ended_at().is_none()).cloned()
    }

    fn in_progress(&self) -> Option<TaskId> {
        find_in_progress_task(&self.tasks).ok()
    }

    fn start(&mut self, task: TaskId) {
        let started = StartHourInterval::new().execute(WorkDayId::new(1), false, self.now).unwrap();
        self.interval = HourInterval::new(
            HourIntervalId::new(1),
            started.work_day_id(),
            started.started_at(),
            None,
            started.successful_count(),
            None,
        );
        let in_progress = MarkTaskInProgress::new().execute(Some(self.task(task))).unwrap();
        self.store_task(in_progress);
        let first = StartHourInterval::new().first_check(self.interval.id(), task, self.now);
        self.create_check(&first);
    }

    fn answer(&mut self, answer: TenMinCheckAnswer, reason: Option<&str>) -> Result<TenMinCheck, SubmitTenMinAnswerError> {
        let use_case = SubmitTenMinAnswer::new();
        let closed = use_case.close(answer, reason.map(|r| r.to_string()), self.open_check(), self.now)?;
        self.store_check(closed.clone());
        match use_case.next_slot(self.interval.id(), &closed, &self.checks, self.in_progress(), self.now)? {
            NextSlot::Nothing => {}
            NextSlot::Rest { draft, message } => {
                self.create_check(&draft);
                self.messages.push(message);
            }
            NextSlot::Work { draft } => {
                self.create_check(&draft);
            }
        }
        Ok(closed)
    }

    fn tick(&mut self, last_reminder_at: Option<UtcTimestamp>) -> Option<UtcTimestamp> {
        let open = self.open_check().unwrap();
        let action = AdvanceOpenTenMinChecks::new(ReminderScheduleConfig::default()).execute(
            &open,
            last_reminder_at,
            &self.checks,
            self.now,
        );
        match action {
            OpenCheckAction::Nothing => last_reminder_at,
            OpenCheckAction::AskAreYouWorking { asked_at, message } => {
                self.messages.push(message);
                Some(asked_at)
            }
            OpenCheckAction::ResolveNoResponse { closed } => {
                self.store_check(closed);
                None
            }
            OpenCheckAction::RemindRestOverrun { reminded_at, message } => {
                self.messages.push(message);
                Some(reminded_at)
            }
        }
    }
}

#[test]
fn yes_not_fifth_closes_worked_and_starts_next_work_slot() {
    let mut flow = Flow::new(&["Write report"]);
    flow.start(TaskId::new(1));

    let closed = flow.answer(TenMinCheckAnswer::Yes, None).unwrap();

    assert_eq!(closed.status(), CheckStatus::Worked);
    assert!(closed.ended_at().is_some());
    assert_eq!(flow.checks.len(), 2);
    assert_eq!(flow.open_check().unwrap().task_id(), TaskId::new(1));
    assert!(flow.messages.is_empty());
}

#[test]
fn fifth_successful_creates_rest_and_notifies() {
    let mut flow = Flow::new(&["Write report"]);
    flow.start(TaskId::new(1));
    for _ in 0..4 {
        flow.answer(TenMinCheckAnswer::Yes, None).unwrap();
    }

    let closed = flow.answer(TenMinCheckAnswer::Yes, None).unwrap();

    assert_eq!(closed.status(), CheckStatus::Worked);
    assert_eq!(flow.checks.len(), 6);
    let closed_worked = flow
        .checks
        .iter()
        .filter(|c| c.ended_at().is_some() && c.status() == CheckStatus::Worked)
        .count();
    assert_eq!(closed_worked, 5);
    assert_eq!(flow.open_check().unwrap().task_id(), TaskId::new(1));
    assert_eq!(flow.messages, vec!["Ты молодец, отдыхай 10 минут".to_string()]);
}

#[test]
fn no_closes_failed_and_does_not_start_next_slot() {
    let mut flow = Flow::new(&["Write report"]);
    flow.start(TaskId::new(1));

    let closed = flow.answer(TenMinCheckAnswer::No, Some("got distracted")).unwrap();

    assert_eq!(closed.status(), CheckStatus::Failed);
    assert_eq!(closed.reason(), Some("got distracted"));
    assert_eq!(flow.checks.len(), 1);
    assert!(flow.checks[0].ended_at().is_some());
    assert!(flow.messages.is_empty());
}

#[test]
fn no_without_reason_is_rejected() {
    let mut flow = Flow::new(&["Write report"]);
    flow.start(TaskId::new(1));

    let error = flow.answer(TenMinCheckAnswer::No, None).unwrap_err();

    assert_eq!(error, SubmitTenMinAnswerError::ReasonRequired);
    assert!(flow.open_check().unwrap().ended_at().is_none());
}

#[test]
fn answering_without_an_open_check_is_refused() {
    let error = SubmitTenMinAnswer::new().close(TenMinCheckAnswer::Yes, None, None, t0()).unwrap_err();
    assert_eq!(error, SubmitTenMinAnswerError::NoOpenCheck);
}

#[test]
fn failures_interleaved_with_successes_still_close_work_stage_at_fifth_worked() {
    let mut flow = Flow::new(&["Write report"]);
    flow.start(TaskId::new(1));
    let task = TaskId::new(1);

    flow.answer(TenMinCheckAnswer::Yes, None).unwrap();
    flow.answer(TenMinCheckAnswer::No, Some("distracted")).unwrap();
    flow.advance(1);
    let retry = TenMinCheck::new(TenMinCheckId::new(0), flow.interval.id(), task, flow.now, None, CheckStatus::Worked, None);
    flow.create_check(&retry);
    flow.answer(TenMinCheckAnswer::Yes, None).unwrap();
    flow.answer(TenMinCheckAnswer::Yes, None).unwrap();
    flow.answer(TenMinCheckAnswer::No, Some("distracted again")).unwrap();
    flow.advance(1);
    let retry2 = TenMinCheck::new(TenMinCheckId::new(0), flow.interval.id(), task, flow.now, None, CheckStatus::Worked, None);
    flow.create_check(&retry2);
    flow.answer(TenMinCheckAnswer::Yes, None).unwrap();
    flow.answer(TenMinCheckAnswer::Yes, None).unwrap();

    let worked = flow.checks.iter().filter(|c| c.status() == CheckStatus::Worked && c.ended_at().is_some()).count();
    let failed = flow.checks.iter().filter(|c| c.status() == CheckStatus::Failed).count();
    assert_eq!(worked, 5);
    assert_eq!(failed, 2);
    assert_eq!(flow.checks.len(), 8);
    assert!(flow.checks.iter().any(|c| c.ended_at().is_none()));
}

fn worked_checks(count: i64, start: UtcTimestamp) -> Vec<TenMinCheck> {
    (0..count)
        .map(|i| {
            let started = after(start, i * 10);
            TenMinCheck::new(
                TenMinCheckId::new(i + 1),
                HourIntervalId::new(1),
                TaskId::new(1),
                started,
                Some(after(started, 10)),
                CheckStatus::Worked,
                None,
            )
        })
        .collect()
}

fn open_interval() -> HourInterval {
    HourInterval::new(HourIntervalId::new(1), WorkDayId::new(1), t0(), None, SuccessfulCount::zero(), None)
}

#[test]
fn natural_completion_yields_five_successful_and_notifies() {
    let mut checks = worked_checks(5, t0());
    checks.push(TenMinCheck::new(
        TenMinCheckId::new(6),
        HourIntervalId::new(1),
        TaskId::new(1),
        after(t0(), 50),
        Some(after(t0(), 60)),
        CheckStatus::Worked,
        None,
    ));
    let now = after(t0(), 61);

    let (finished, message) = FinishHourInterval::new()
        .execute(Some(open_interval()), &checks, "wrote the report".to_string(), now)
        .unwrap();

    assert_eq!(finished.successful_count().value(), 5);
    assert_eq!(finished.summary(), Some("wrote the report"));
    assert_eq!(finished.ended_at(), Some(now));
    assert_eq!(message, "Интервал завершён: 5/5");
}

#[test]
fn forced_finish_before_five_successful_keeps_actual_count_and_no_rest() {
    let checks = worked_checks(2, t0());
    let (finished, message) = FinishHourInterval::new()
        .execute(Some(open_interval()), &checks, String::new(), after(t0(), 25))
        .unwrap();
    assert_eq!(finished.successful_count().value(), 2);
    assert_eq!(message, "Интервал завершён: 2/5");
}

#[test]
fn rejects_finishing_an_already_closed_interval() {
    let use_case = FinishHourInterval::new();
    let (finished, _) = use_case.execute(Some(open_interval()), &Vec::new(), "done".to_string(), t0()).unwrap();
    let error = use_case.execute(Some(finished), &Vec::new(), "done again".to_string(), t0()).unwrap_err();
    assert_eq!(error, FinishHourIntervalError::AlreadyClosed);
}

#[test]
fn closes_current_task_and_marks_new_one_in_progress() {
    let mut flow = Flow::new(&["Write report", "Review PR"]);
    flow.start(TaskId::new(1));

    let done = SwitchTaskMidInterval::new().execute(&flow.tasks).unwrap();
    assert_eq!(done.id(), TaskId::new(1));
    assert_eq!(done.status(), TaskStatus::Done);
    flow.store_task(done);
    let updated = MarkTaskInProgress::new().execute(Some(flow.task(TaskId::new(2)))).unwrap();
    flow.store_task(updated.clone());

    assert_eq!(updated.id(), TaskId::new(2));
    assert_eq!(updated.status(), TaskStatus::InProgress);
    assert_eq!(flow.task(TaskId::new(1)).status(), TaskStatus::Done);
}

#[test]
fn full_happy_path_five_worked_slots_earns_rest_and_closes_five_of_five() {
    let mut flow = Flow::new(&["Write report"]);
    flow.start(TaskId::new(1));
    for _ in 0..5 {
        flow.answer(TenMinCheckAnswer::Yes, None).unwrap();
    }

    assert_eq!(flow.checks.iter().filter(|c| c.ended_at().is_some()).count(), 5);
    assert_eq!(flow.checks.iter().filter(|c| c.ended_at().is_none()).count(), 1);

    flow.advance(10);
    let returned = MarkReturnedFromRest::new().execute(flow.open_check(), &flow.checks, flow.now).unwrap();
    flow.store_check(returned);

    let (finished, _) = FinishHourInterval::new()
        .execute(Some(flow.interval.clone()), &flow.checks, "wrote the report".to_string(), flow.now)
        .unwrap();
    assert_eq!(finished.successful_count().value(), 5);
    assert_eq!(finished.summary(), Some("wrote the report"));
}

#[test]
fn switching_task_mid_interval_routes_subsequent_checks_to_new_task() {
    let mut flow = Flow::new(&["Task A", "Task B"]);
    let task_a = TaskId::new(1);
    let task_b = TaskId::new(2);
    flow.start(task_a);

    let first_closed = flow.answer(TenMinCheckAnswer::Yes, None).unwrap();
    assert_eq!(first_closed.task_id(), task_a);

    let done = SwitchTaskMidInterval::new().execute(&flow.tasks).unwrap();
    flow.store_task(done);
    let b = MarkTaskInProgress::new().execute(Some(flow.task(task_b))).unwrap();
    flow.store_task(b);

    assert_eq!(flow.task(task_a).status(), TaskStatus::Done);
    assert_eq!(flow.task(task_b).status(), TaskStatus::InProgress);
    // The check already running keeps task A; the next one goes to task B.
    assert_eq!(flow.open_check().unwrap().task_id(), task_a);
    flow.answer(TenMinCheckAnswer::Yes, None).unwrap();
    assert_eq!(flow.open_check().unwrap().task_id(), task_b);
}

#[test]
fn silence_then_late_response_appends_reason_and_confirm_starts_fresh_slot() {
    let mut flow = Flow::new(&["Write report"]);
    let task = TaskId::new(1);
    flow.start(task);

    // Silence: asked at ten minutes, resolved on the next tick.
    flow.advance(10);
    let asked = flow.tick(None);
    assert!(asked.is_some());
    flow.advance(1);
    flow.tick(asked);
    let closed = flow.checks.last().unwrap().clone();
    assert_eq!(closed.status(), CheckStatus::NoResponse);
    assert_eq!(closed.reason(), None);

    // The user finally answers: the reason goes into the closed check.
    flow.advance(3);
    let with_reason = SubmitFailureReason::new()
        .execute(Some(closed.clone()), "was in a meeting".to_string())
        .unwrap();
    flow.store_check(with_reason.clone());
    assert_eq!(with_reason.reason(), Some("was in a meeting"));
    assert_eq!(with_reason.ended_at(), closed.ended_at());
    assert_eq!(with_reason.status(), CheckStatus::NoResponse);

    // "Ready to continue": the new check starts at the confirmation.
    flow.advance(1);
    let confirm_at = flow.now;
    let next = ConfirmReadyToContinue::new()
        .execute(flow.interval.id(), flow.checks.last().cloned(), flow.in_progress(), confirm_at)
        .unwrap();
    assert_eq!(next.started_at(), confirm_at);
    assert_ne!(next.started_at(), closed.ended_at().unwrap());
    assert_eq!(next.task_id(), task);
    assert_eq!(next.ended_at(), None);
}

#[test]
fn switching_without_a_task_in_progress_is_not_found() {
    let flow = Flow::new(&["Write report"]);
    let error = SwitchTaskMidInterval::new().execute(&flow.tasks).unwrap_err();
    assert_eq!(error, SwitchTaskMidIntervalError::Repo(RepoError::NotFound));
}
