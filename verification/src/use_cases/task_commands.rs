//! Commands on the task pool: create, edit, start, switch.
use vstd::prelude::*;

use crate::calendar::CalendarDate;
use crate::error::DomainError;
use crate::ids::TaskId;
use crate::task::{Task, TaskPriority, TaskStatus, TaskView};
use crate::text::is_blank_text;
use crate::use_cases::errors::RepoError;
use crate::value_objects::{TelegramId, UtcTimestamp};

verus! {

/// Why a task could not be created.
#[derive(Debug, Clone, PartialEq, Eq)]
pub enum CreateTaskError {
    Domain(DomainError),
    Repo(RepoError),
}

/// Creates a task in the user's pool. A new task is always `Ready`, so it
/// can be picked for an interval right away.
pub struct CreateTask;

impl CreateTask {
    pub fn new() -> (u: Self) {
        CreateTask
    }

    /// The task to store (its id is assigned by storage).
    pub fn execute(
        &self,
        user_id: TelegramId,
        title: String,
        priority: Option<TaskPriority>,
        deadline: Option<CalendarDate>,
        now: UtcTimestamp,
    ) -> (r: Result<Task, CreateTaskError>)
        ensures
            is_blank_text(title@) ==> r == Err::<Task, CreateTaskError>(
                CreateTaskError::Domain(DomainError::EmptyTaskTitle),
            ),
            !is_blank_text(title@) ==> (r matches Ok(t) && t@ == (TaskView {
                id: TaskId::spec_placeholder(),
                user_id,
                title: title@,
                status: TaskStatus::Ready,
                priority,
                deadline,
                created_at: now,
            })),
    {
        let id = TaskId::new(0);
        proof {
            TaskId::lemma_placeholder(id);
        }
        match Task::new(id, user_id, title, TaskStatus::Ready, priority, deadline, now) {
            Ok(t) => Ok(t),
            Err(e) => Err(CreateTaskError::Domain(e)),
        }
    }
}

/// Why a task could not be edited.
#[derive(Debug, Clone, PartialEq, Eq)]
pub enum UpdateTaskError {
    /// `InProgress` cannot be set by hand: starting an interval sets it.
    InProgressNotAllowed,
    Domain(DomainError),
    Repo(RepoError),
}

/// A field given as `Some` replaces the stored one, `None` keeps it.
pub open spec fn chosen<T>(given: Option<T>, stored: T) -> T {
    match given {
        Some(v) => v,
        None => stored,
    }
}

/// The text of an optional new title, or the stored title.
pub open spec fn chosen_title(given: Option<String>, stored: Seq<char>) -> Seq<char> {
    match given {
        Some(t) => t@,
        None => stored,
    }
}

/// Edits the fields a user sets by hand. For priority and deadline the outer
/// `None` keeps the field, `Some(None)` clears it and `Some(Some(v))` sets
/// it; title and status are kept when `None`.
pub struct UpdateTask;

impl UpdateTask {
    pub fn new() -> (u: Self) {
        UpdateTask
    }

    /// The edited task. Setting `InProgress` is refused before the task is
    /// looked up; a missing task is not found; a blank title is refused.
    pub fn execute(
        &self,
        existing: Option<Task>,
        title: Option<String>,
        priority: Option<Option<TaskPriority>>,
        deadline: Option<Option<CalendarDate>>,
        status: Option<TaskStatus>,
    ) -> (r: Result<Task, UpdateTaskError>)
        ensures
            status == Some(TaskStatus::InProgress) ==> r == Err::<Task, UpdateTaskError>(
                UpdateTaskError::InProgressNotAllowed,
            ),
            status != Some(TaskStatus::InProgress) ==> (existing is None ==> r == Err::<
                Task,
                UpdateTaskError,
            >(UpdateTaskError::Repo(RepoError::NotFound))),
            status != Some(TaskStatus::InProgress) ==> (existing matches Some(old) ==> (
            is_blank_text(chosen_title(title, old@.title)) ==> r == Err::<Task, UpdateTaskError>(
                UpdateTaskError::Domain(DomainError::EmptyTaskTitle),
            ))),
            status != Some(TaskStatus::InProgress) ==> (existing matches Some(old) ==> (
            !is_blank_text(chosen_title(title, old@.title)) ==> (r matches Ok(t) && t@ == (
            TaskView {
                id: old@.id,
                user_id: old@.user_id,
                title: chosen_title(title, old@.title),
                status: chosen(status, old@.status),
                priority: chosen(priority, old@.priority),
                deadline: chosen(deadline, old@.deadline),
                created_at: old@.created_at,
            })))),
    {
        if status == Some(TaskStatus::InProgress) {
            return Err(UpdateTaskError::InProgressNotAllowed);
        }
        let old = match existing {
            Some(t) => t,
            None => {
                return Err(UpdateTaskError::Repo(RepoError::NotFound));
            },
        };
        let new_title = match title {
            Some(t) => t,
            None => crate::text::owned(old.title()),
        };
        let new_status = match status {
            Some(s) => s,
            None => old.status(),
        };
        let new_priority = match priority {
            Some(p) => p,
            None => old.priority(),
        };
        let new_deadline = match deadline {
            Some(d) => d,
            None => old.deadline(),
        };
        match Task::new(old.id(), old.user_id(), new_title, new_status, new_priority, new_deadline, old.created_at()) {
            Ok(t) => Ok(t),
            Err(e) => Err(UpdateTaskError::Domain(e)),
        }
    }
}

/// Puts a task in progress; used when an interval starts and on a task
/// switch.
pub struct MarkTaskInProgress;

impl MarkTaskInProgress {
    pub fn new() -> (u: Self) {
        MarkTaskInProgress
    }

    /// The task with status `InProgress`, or not found.
    pub fn execute(&self, existing: Option<Task>) -> (r: Result<Task, RepoError>)
        ensures
            existing is None ==> r == Err::<Task, RepoError>(RepoError::NotFound),
            existing matches Some(old) ==> (r matches Ok(t) && t@ == (TaskView {
                status: TaskStatus::InProgress,
                ..old@
            })),
    {
        match existing {
            Some(old) => Ok(old.with_status(TaskStatus::InProgress)),
            None => Err(RepoError::NotFound),
        }
    }
}

/// The position of the first task in progress, if any.
pub open spec fn first_in_progress(tasks: Seq<Task>) -> Option<int>
    decreases tasks.len(),
{
    if tasks.len() == 0 {
        None
    } else {
        match first_in_progress(tasks.drop_last()) {
            Some(i) => Some(i),
            None => if tasks.last()@.status == TaskStatus::InProgress {
                Some(tasks.len() - 1)
            } else {
                None
            },
        }
    }
}

/// The position of the first task in progress.
fn position_in_progress(tasks: &Vec<Task>) -> (r: Option<usize>)
    ensures
        r matches Some(p) ==> first_in_progress(tasks@) == Some(p as int) && p < tasks@.len(),
        r is None ==> first_in_progress(tasks@) is None,
{
    let mut i: usize = 0;
    while i < tasks.len()
        invariant
            i <= tasks@.len(),
            first_in_progress(tasks@.take(i as int)) is None,
        decreases tasks@.len() - i,
    {
        proof {
            assert(tasks@.take(i as int + 1).drop_last() =~= tasks@.take(i as int));
            lemma_first_in_progress_prefix(tasks@, i as int + 1);
        }
        if tasks[i].status() == TaskStatus::InProgress {
            return Some(i);
        }
        i = i + 1;
    }
    proof {
        assert(tasks@.take(i as int) =~= tasks@);
    }
    None
}

/// The user's task in progress (the first one in the list), which the new
/// slots of the active interval run under.
pub fn find_in_progress_task(tasks: &Vec<Task>) -> (r: Result<TaskId, RepoError>)
    ensures
        first_in_progress(tasks@) matches Some(i) ==> r == Ok::<TaskId, RepoError>(tasks@[i]@.id),
        first_in_progress(tasks@) is None ==> r == Err::<TaskId, RepoError>(RepoError::NotFound),
{
    match position_in_progress(tasks) {
        Some(i) => Ok(tasks[i].id()),
        None => Err(RepoError::NotFound),
    }
}

proof fn lemma_first_in_progress_prefix(tasks: Seq<Task>, k: int)
    requires
        0 <= k <= tasks.len(),
    ensures
        first_in_progress(tasks.take(k)) matches Some(i) ==> first_in_progress(tasks) == Some(i),
    decreases tasks.len(),
{
    if k < tasks.len() {
        assert(tasks.drop_last().take(k) =~= tasks.take(k));
        lemma_first_in_progress_prefix(tasks.drop_last(), k);
    } else {
        assert(tasks.take(k) =~= tasks);
    }
}

/// Why a task switch failed.
#[derive(Debug, Clone, PartialEq, Eq)]
pub enum SwitchTaskMidIntervalError {
    Repo(RepoError),
}

/// "Task done" in the middle of an interval: the task in progress becomes
/// done and the new one goes in progress. The check already running keeps
/// its task; the next slots pick up the new task because they look up the
/// task in progress when they start.
pub struct SwitchTaskMidInterval;

impl SwitchTaskMidInterval {
    pub fn new() -> (u: Self) {
        SwitchTaskMidInterval
    }

    /// The user's task in progress (the first one listed), marked done; the
    /// caller then starts the new task with `MarkTaskInProgress`.
    pub fn execute(&self, tasks: &Vec<Task>) -> (r: Result<Task, SwitchTaskMidIntervalError>)
        ensures
            first_in_progress(tasks@) matches Some(i) ==> (r matches Ok(t) && t@ == (TaskView {
                status: TaskStatus::Done,
                ..tasks@[i]@
            })),
            first_in_progress(tasks@) is None ==> r == Err::<Task, SwitchTaskMidIntervalError>(
                SwitchTaskMidIntervalError::Repo(RepoError::NotFound),
            ),
    {
        match position_in_progress(tasks) {
            Some(i) => Ok(tasks[i].with_status(TaskStatus::Done)),
            None => Err(SwitchTaskMidIntervalError::Repo(RepoError::NotFound)),
        }
    }
}

} // verus!
