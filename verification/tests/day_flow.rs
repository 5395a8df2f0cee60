use workbeat::hour_interval::{HourInterval, SuccessfulCount};
use workbeat::ids::{HourIntervalId, TaskId, TenMinCheckId, WorkDayId};
use workbeat::task::{Task, TaskStatus};
use workbeat::ten_min_check::{CheckStatus, TenMinCheck};
use workbeat::ten_min_check_state::TenMinCheckAnswer;
use workbeat::time_calculations::{day_overrun, interval_overrun};
use workbeat::use_cases::build_day_report::BuildDayReport;
use workbeat::use_cases::confirm_ready_to_continue::ConfirmReadyToContinue;
use workbeat::use_cases::day_commands::{has_open_interval, EndLunch, StartHourInterval, StartLunch};
use workbeat::use_cases::report_dto::DayReportInfo;
use workbeat::use_cases::finish_hour_interval::FinishHourInterval;
use workbeat::use_cases::finish_work_day::{FinishPlan, FinishWorkDay, FinishWorkDayError};
use workbeat::use_cases::mark_returned_from_rest::MarkReturnedFromRest;
use workbeat::use_cases::submit_ten_min_answer::{NextSlot, SubmitTenMinAnswer};
use workbeat::use_cases::task_commands::{find_in_progress_task, MarkTaskInProgress, SwitchTaskMidInterval};
use workbeat::value_objects::{Duration, TelegramId, UtcTimestamp};
use workbeat::work_day::WorkDay;

/// 2026-01-05T08:00:00Z.
fn t0() -> UtcTimestamp {
    UtcTimestamp::new(1_767_600_000_000)
}

fn after(t: UtcTimestamp, minutes: i64) -> UtcTimestamp {
    t.plus(&Duration::minutes(minutes))
}

fn user() -> TelegramId {
    TelegramId::new(1).unwrap()
}

/// A work day as storage would keep it between commands.
struct World {
    day: WorkDay,
    intervals: Vec<HourInterval>,
    checks: Vec<Vec<TenMinCheck>>,
    tasks: Vec<Task>,
    next_check_id: i64,
    now: UtcTimestamp,
}

impl World {
    fn new() -> World {
        World {
            day: WorkDay::new(WorkDayId::new(1), user(), t0(), None, None, None),
            intervals: Vec::new(),
            checks: Vec::new(),
            tasks: Vec::new(),
            next_check_id: 0,
            now: t0(),
        }
    }

    fn advance(&mut self, minutes: i64) {
        self.now = after(self.now, minutes);
    }

    fn seed_task(&mut self, title: &str) -> TaskId {
        let id = TaskId::new(self.tasks.len() as i64 + 1);
        self.tasks.push(Task::new(id, user(), title.to_string(), TaskStatus::Ready, None, None, self.now).unwrap());
        id
    }

    fn store_task(&mut self, task: Task) {
        let pos = self.tasks.iter().position(|t| t.id() == task.id()).unwrap();
        self.tasks[pos] = task;
    }

    fn task(&self, id: TaskId) -> Task {
        self.tasks.iter().find(|t| t.id() == id).unwrap().clone()
    }

    fn create_check(&mut self, slot: usize, draft: &TenMinCheck) {
        self.next_check_id += 1;
        let check = TenMinCheck::new(
            TenMinCheckId::new(self.next_check_id),
            draft.hour_interval_id(),
            draft.task_id(),
            draft.started_at(),
            draft.ended_at(),
            draft.status(),
            draft.reason_owned(),
        );
        self.checks[slot].push(check);
    }

    fn store_check(&mut self, slot: usize, check: TenMinCheck) {
        let pos = self.checks[slot].iter().position(|c| c.id() == check.id()).unwrap();
        self.checks[slot][pos] = check;
    }

    fn open_check(&self, slot: usize) -> Option<TenMinCheck> {
        self.checks[slot].iter().find(|c| c.ended_at().is_none()).cloned()
    }

    /// Starts an interval on `task`; gives its position.
    fn start_interval(&mut self, task: TaskId) -> usize {
        let use_case = StartHourInterval::new();
        let draft = use_case.execute(self.day.id(), has_open_interval(&self.intervals), self.now).unwrap();
        let id = HourIntervalId::new(self.intervals.len() as i64 + 1);
        let interval = HourInterval::new(id, draft.work_day_id(), draft.started_at(), None, draft.successful_count(), None);
        self.intervals.push(interval);
        self.checks.push(Vec::new());
        let in_progress = MarkTaskInProgress::new().execute(Some(self.task(task))).unwrap();
        self.store_task(in_progress);
        let first = use_case.first_check(id, task, self.now);
        let slot = self.intervals.len() - 1;
        self.create_check(slot, &first);
        slot
    }

    fn answer_yes(&mut self, slot: usize) {
        let use_case = SubmitTenMinAnswer::new();
        let closed = use_case.close(TenMinCheckAnswer::Yes, None, self.open_check(slot), self.now).unwrap();
        self.store_check(slot, closed.clone());
        let in_progress = find_in_progress_task(&self.tasks).ok();
        let interval_id = self.intervals[slot].id();
        match use_case.next_slot(interval_id, &closed, &self.checks[slot], in_progress, self.now).unwrap() {
            NextSlot::Nothing => {}
            NextSlot::Rest { draft, .. } => self.create_check(slot, &draft),
            NextSlot::Work { draft } => self.create_check(slot, &draft),
        }
    }

    fn answer_no(&mut self, slot: usize, reason: &str) {
        let closed = SubmitTenMinAnswer::new()
            .close(TenMinCheckAnswer::No, Some(reason.to_string()), self.open_check(slot), self.now)
            .unwrap();
        self.store_check(slot, closed);
    }

    fn confirm(&mut self, slot: usize) {
        let last = self.checks[slot].last().cloned();
        let in_progress = find_in_progress_task(&self.tasks).ok();
        let next = ConfirmReadyToContinue::new().execute(self.intervals[slot].id(), last, in_progress, self.now).unwrap();
        self.create_check(slot, &next);
    }

    fn mark_returned(&mut self, slot: usize) {
        let closed = MarkReturnedFromRest::new().execute(self.open_check(slot), &self.checks[slot], self.now).unwrap();
        self.store_check(slot, closed);
    }

    fn finish_interval(&mut self, slot: usize) {
        let (closed, _) = FinishHourInterval::new()
            .execute(Some(self.intervals[slot].clone()), &self.checks[slot], "done".to_string(), self.now)
            .unwrap();
        self.intervals[slot] = closed;
    }

    fn switch_to(&mut self, task: TaskId) {
        let done = SwitchTaskMidInterval::new().execute(&self.tasks).unwrap();
        self.store_task(done);
        let next = MarkTaskInProgress::new().execute(Some(self.task(task))).unwrap();
        self.store_task(next);
    }

    fn mark_done(&mut self, task: TaskId) {
        let done = self.task(task).with_status(TaskStatus::Done);
        self.store_task(done);
    }

    /// Five worked slots, ten minutes each, the rest, then the close.
    fn run_full_interval(&mut self, task: TaskId) {
        let slot = self.start_interval(task);
        for _ in 0..5 {
            self.advance(10);
            self.answer_yes(slot);
        }
        self.advance(10);
        self.mark_returned(slot);
        self.finish_interval(slot);
    }

    fn finish_day(&mut self) -> Result<FinishPlan, FinishWorkDayError> {
        let plan = FinishWorkDay::new().execute(Some(self.day), self.intervals.clone(), self.checks.clone(), self.now)?;
        self.day = plan.work_day;
        self.intervals = plan.intervals.clone();
        self.checks = plan.checks.clone();
        Ok(plan)
    }
}

fn sorted(mut totals: Vec<(TaskId, Duration)>) -> Vec<(TaskId, Duration)> {
    totals.sort_by_key(|(task, _)| task.value());
    totals
}

#[test]
fn finish_work_day_excludes_lunch_from_norm_and_reports_lunch_separately() {
    let lunch_started_at = after(t0(), 240);
    let lunch_ended_at = after(lunch_started_at, 30);
    let mut world = World::new();
    world.day = WorkDay::new(WorkDayId::new(1), user(), t0(), None, Some(lunch_started_at), Some(lunch_ended_at));
    world.now = after(lunch_ended_at, 60);

    let plan = world.finish_day().unwrap();

    assert_eq!(plan.summary.lunch_duration, Some(Duration::minutes(30)));
    assert_eq!(plan.summary.closed_intervals, 0);
}

fn seed_worked(world: &mut World, slot: usize, task: TaskId, count: i64, start: UtcTimestamp) {
    let interval_id = world.intervals[slot].id();
    for i in 0..count {
        let started = after(start, i * 10);
        let draft = TenMinCheck::new(
            TenMinCheckId::new(0),
            interval_id,
            task,
            started,
            Some(after(started, 10)),
            CheckStatus::Worked,
            None,
        );
        world.create_check(slot, &draft);
    }
}

fn open_interval(world: &mut World) -> usize {
    let id = HourIntervalId::new(world.intervals.len() as i64 + 1);
    world.intervals.push(HourInterval::new(id, world.day.id(), world.now, None, SuccessfulCount::zero(), None));
    world.checks.push(Vec::new());
    world.intervals.len() - 1
}

#[test]
fn forced_finish_with_open_working_check_closes_no_response_with_actual_duration() {
    let mut world = World::new();
    let task = TaskId::new(1);
    let slot = open_interval(&mut world);
    let start = world.now;
    seed_worked(&mut world, slot, task, 2, start);
    let open_started_at = after(world.now, 20);
    let open = TenMinCheck::new(TenMinCheckId::new(0), world.intervals[slot].id(), task, open_started_at, None, CheckStatus::Worked, None);
    world.create_check(slot, &open);
    world.advance(35);
    let finish_at = world.now;

    let plan = world.finish_day().unwrap();

    assert_eq!(plan.summary.closed_intervals, 1);
    let closed_interval = plan.closed_interval.clone().unwrap();
    assert_eq!(closed_interval.successful_count().value(), 2);
    assert_eq!(closed_interval.ended_at(), Some(finish_at));
    assert_eq!(world.intervals[slot].ended_at(), Some(finish_at));
    let last = world.checks[slot].iter().find(|c| c.started_at() == open_started_at).unwrap();
    assert_eq!(last.status(), CheckStatus::NoResponse);
    assert_eq!(last.reason(), None);
    assert_eq!(last.ended_at(), Some(finish_at));
    assert_ne!(last.ended_at().unwrap().duration_since(&last.started_at()), Duration::minutes(10));
    assert_eq!(plan.closed_check.unwrap().ended_at(), Some(finish_at));
    assert!(world.open_check(slot).is_none());
}

#[test]
fn forced_finish_with_open_rest_check_closes_it_with_actual_duration_and_no_reason() {
    let mut world = World::new();
    let task = TaskId::new(1);
    let slot = open_interval(&mut world);
    let start = world.now;
    seed_worked(&mut world, slot, task, 5, start);
    let rest_started_at = after(world.now, 50);
    let rest = TenMinCheck::new(TenMinCheckId::new(0), world.intervals[slot].id(), task, rest_started_at, None, CheckStatus::Worked, None);
    world.create_check(slot, &rest);
    world.advance(75);
    let finish_at = world.now;

    let plan = world.finish_day().unwrap();

    assert_eq!(plan.summary.closed_intervals, 1);
    assert_eq!(world.intervals[slot].successful_count().value(), 5);
    let rest = world.checks[slot].iter().find(|c| c.started_at() == rest_started_at).unwrap();
    assert_eq!(rest.status(), CheckStatus::Worked);
    assert_eq!(rest.reason(), None);
    assert_eq!(rest.ended_at(), Some(finish_at));
    assert_eq!(plan.summary.task_totals, vec![(task, Duration::minutes(60))]);
}

#[test]
fn forced_finish_with_already_closed_awaiting_resume_check_closes_nothing_extra() {
    let mut world = World::new();
    let task = TaskId::new(1);
    let slot = open_interval(&mut world);
    let start = world.now;
    seed_worked(&mut world, slot, task, 2, start);
    let last_started_at = after(world.now, 20);
    let last_ended_at = after(last_started_at, 10);
    let closed = TenMinCheck::new(
        TenMinCheckId::new(0),
        world.intervals[slot].id(),
        task,
        last_started_at,
        Some(last_ended_at),
        CheckStatus::NoResponse,
        None,
    );
    world.create_check(slot, &closed);
    world.advance(40);
    let finish_at = world.now;

    let plan = world.finish_day().unwrap();

    assert!(plan.closed_check.is_none());
    assert_eq!(world.checks[slot].len(), 3);
    let untouched = world.checks[slot].iter().find(|c| c.started_at() == last_started_at).unwrap();
    assert_eq!(untouched.ended_at(), Some(last_ended_at));
    assert_ne!(untouched.ended_at(), Some(finish_at));
    assert_eq!(world.intervals[slot].ended_at(), Some(finish_at));
    assert_eq!(world.intervals[slot].successful_count().value(), 2);
}

#[test]
fn finishing_marks_work_day_finished_and_notifies_user() {
    let mut world = World::new();
    let plan = world.finish_day().unwrap();
    assert_eq!(plan.summary.closed_intervals, 0);
    assert!(world.day.finished_at().is_some());
    assert_eq!(plan.message, "День завершён: 0/8 интервалов");
}

#[test]
fn rejects_finishing_an_already_finished_day() {
    let mut world = World::new();
    world.finish_day().unwrap();
    let error = world.finish_day().unwrap_err();
    assert_eq!(error, FinishWorkDayError::AlreadyFinished);
}

#[test]
fn golden_scenario_two_full_intervals_same_task_sum_two_hours() {
    let mut world = World::new();
    let task = world.seed_task("Write report");
    world.run_full_interval(task);
    world.run_full_interval(task);

    let plan = world.finish_day().unwrap();

    assert_eq!(plan.summary.closed_intervals, 2);
    assert!(!plan.summary.norm_met);
    assert_eq!(plan.summary.lunch_duration, None);
    assert_eq!(plan.summary.task_totals, vec![(task, Duration::minutes(120))]);
}

#[test]
fn golden_scenario_task_switch_mid_interval_splits_time_and_credits_rest_to_second_task() {
    let mut world = World::new();
    let task_a = world.seed_task("Task A");
    let task_b = world.seed_task("Task B");
    let slot = world.start_interval(task_a);
    world.advance(10);
    world.answer_yes(slot);
    // The second slot is already open under task A and closes under it.
    world.switch_to(task_b);
    for _ in 0..4 {
        world.advance(10);
        world.answer_yes(slot);
    }
    world.advance(10);
    world.mark_returned(slot);
    world.finish_interval(slot);

    let plan = world.finish_day().unwrap();

    assert_eq!(plan.summary.closed_intervals, 1);
    assert_eq!(
        sorted(plan.summary.task_totals.clone()),
        vec![(task_a, Duration::minutes(20)), (task_b, Duration::minutes(40))]
    );
}

#[test]
fn golden_scenario_lunch_after_fourth_interval_then_forced_finish_mid_fifth() {
    let mut world = World::new();
    let task_a = world.seed_task("Task A");
    let task_b = world.seed_task("Task B");
    for _ in 0..4 {
        world.run_full_interval(task_a);
    }
    world.day = StartLunch::new().execute(Some(world.day), has_open_interval(&world.intervals), world.now).unwrap();
    world.advance(30);
    world.day = EndLunch::new().execute(Some(world.day), world.now).unwrap();
    world.mark_done(task_a);
    let slot = world.start_interval(task_b);
    for _ in 0..2 {
        world.advance(10);
        world.answer_yes(slot);
    }
    // The third work slot started, unanswered at the finish.
    world.advance(7);

    let plan = world.finish_day().unwrap();

    assert_eq!(plan.summary.closed_intervals, 5);
    assert!(!plan.summary.norm_met);
    assert_eq!(plan.summary.lunch_duration, Some(Duration::minutes(30)));
    assert_eq!(
        sorted(plan.summary.task_totals.clone()),
        vec![(task_a, Duration::minutes(240)), (task_b, Duration::minutes(20))]
    );
    assert!(world.checks.iter().all(|cs| cs.iter().all(|c| c.ended_at().is_some())));
    assert!(!has_open_interval(&world.intervals));
}

#[test]
fn a_full_day_meets_the_norm() {
    let mut world = World::new();
    let task = world.seed_task("Deep work");
    for _ in 0..8 {
        world.run_full_interval(task);
    }
    let plan = world.finish_day().unwrap();
    assert_eq!(plan.summary.closed_intervals, 8);
    assert!(plan.summary.norm_met);
    assert_eq!(plan.message, "День завершён: 8/8 интервалов, норма выполнена");
    assert_eq!(plan.summary.task_totals, vec![(task, Duration::minutes(480))]);
}

#[test]
fn the_day_report_agrees_with_the_finish_summary() {
    let mut world = World::new();
    let task_a = world.seed_task("Task A");
    let task_b = world.seed_task("Task B");
    world.run_full_interval(task_a);
    world.mark_done(task_a);
    world.run_full_interval(task_b);
    world.day = StartLunch::new().execute(Some(world.day), false, world.now).unwrap();
    world.advance(45);
    world.day = EndLunch::new().execute(Some(world.day), world.now).unwrap();
    let titles = vec![(task_a, "Task A".to_string()), (task_b, "Task B".to_string())];

    let report = BuildDayReport::new()
        .execute(Some(world.day), &world.intervals, &world.checks, &titles)
        .unwrap();
    let plan = world.finish_day().unwrap();

    let from_report: Vec<(TaskId, Duration)> = report.task_totals.iter().map(|e| (e.task_id, e.duration)).collect();
    assert_eq!(from_report, sorted(plan.summary.task_totals.clone()));
    assert_eq!(
        report.day,
        Some(DayReportInfo { closed_intervals: plan.summary.closed_intervals, norm_met: plan.summary.norm_met })
    );
    assert_eq!(Some(report.lunch_duration), plan.summary.lunch_duration);
}

#[test]
fn scenario_16_plan_vs_actual_overrun_report_matches_manual_calculation() {
    let mut world = World::new();
    let task = world.seed_task("Overrun test");

    // First interval: no failure, exactly the nominal hour.
    world.run_full_interval(task);

    // Second interval: one failure (five minutes to confirm) and a rest
    // fifteen minutes too long: 10 + 10 + 5 + 4 x 10 + 25 = 90 minutes.
    let slot = world.start_interval(task);
    world.advance(10);
    world.answer_yes(slot);
    world.advance(10);
    world.answer_no(slot, "phone call");
    world.advance(5);
    world.confirm(slot);
    for _ in 0..4 {
        world.advance(10);
        world.answer_yes(slot);
    }
    world.advance(25);
    world.mark_returned(slot);
    world.finish_interval(slot);

    assert_eq!(world.intervals.len(), 2);
    let overrun_of = |i: &HourInterval| interval_overrun(i.ended_at().unwrap().duration_since(&i.started_at()));
    let first = overrun_of(&world.intervals[0]);
    let second = overrun_of(&world.intervals[1]);
    assert_eq!(first, Duration::zero());
    assert_eq!(second, Duration::minutes(30));
    assert_eq!(day_overrun(&[first, second]), Duration::minutes(30));
    assert_eq!(world.intervals[1].successful_count().value(), 5);
}
