use vstd::prelude::*;

use crate::calendar::CalendarDate;
use crate::error::DomainError;
use crate::ids::TaskId;
use crate::text::{is_blank, is_blank_text};
use crate::value_objects::{TelegramId, UtcTimestamp};

verus! {

/// Status of a task of the pool.
#[derive(Debug, Clone, Copy, PartialEq, Eq, Structural)]
pub enum TaskStatus {
    Ready,
    NotReady,
    InProgress,
    Done,
}

/// Optional priority of a task.
#[derive(Debug, Clone, Copy, PartialEq, Eq, Structural)]
pub enum TaskPriority {
    High,
    Medium,
    Low,
}

/// A task of the user's pool; its title is never blank.
#[derive(Debug, PartialEq, Eq)]
pub struct Task {
    id: TaskId,
    user_id: TelegramId,
    title: String,
    status: TaskStatus,
    priority: Option<TaskPriority>,
    deadline: Option<CalendarDate>,
    created_at: UtcTimestamp,
}

impl Clone for Task {
    fn clone(&self) -> (t: Self)
        ensures
            t@ == self@,
    {
        self.with_status(self.status)
    }
}

/// The fields of a task.
pub struct TaskView {
    pub id: TaskId,
    pub user_id: TelegramId,
    pub title: Seq<char>,
    pub status: TaskStatus,
    pub priority: Option<TaskPriority>,
    pub deadline: Option<CalendarDate>,
    pub created_at: UtcTimestamp,
}

impl View for Task {
    type V = TaskView;

    closed spec fn view(&self) -> TaskView {
        TaskView {
            id: self.id,
            user_id: self.user_id,
            title: self.title@,
            status: self.status,
            priority: self.priority,
            deadline: self.deadline,
            created_at: self.created_at,
        }
    }
}

impl Task {
    #[verifier::type_invariant]
    spec fn titled(self) -> bool {
        !is_blank_text(self.title@)
    }

    /// Builds a task; fails exactly when the title is white space only.
    pub fn new(
        id: TaskId,
        user_id: TelegramId,
        title: String,
        status: TaskStatus,
        priority: Option<TaskPriority>,
        deadline: Option<CalendarDate>,
        created_at: UtcTimestamp,
    ) -> (r: Result<Self, DomainError>)
        ensures
            is_blank_text(title@) ==> r == Err::<Self, DomainError>(DomainError::EmptyTaskTitle),
            !is_blank_text(title@) ==> (r matches Ok(t) && t@ == (TaskView {
                id,
                user_id,
                title: title@,
                status,
                priority,
                deadline,
                created_at,
            })),
    {
        if is_blank(title.as_str()) {
            return Err(DomainError::EmptyTaskTitle);
        }
        Ok(Task { id, user_id, title, status, priority, deadline, created_at })
    }

    pub fn id(&self) -> (r: TaskId)
        ensures
            r == self@.id,
    {
        self.id
    }

    pub fn user_id(&self) -> (r: TelegramId)
        ensures
            r == self@.user_id,
    {
        self.user_id
    }

    pub fn title(&self) -> (r: &str)
        ensures
            r@ == self@.title,
            !is_blank_text(r@),
    {
        proof {
            use_type_invariant(self);
        }
        self.title.as_str()
    }

    pub fn status(&self) -> (r: TaskStatus)
        ensures
            r == self@.status,
    {
        self.status
    }

    pub fn priority(&self) -> (r: Option<TaskPriority>)
        ensures
            r == self@.priority,
    {
        self.priority
    }

    pub fn deadline(&self) -> (r: Option<CalendarDate>)
        ensures
            r == self@.deadline,
    {
        self.deadline
    }

    pub fn created_at(&self) -> (r: UtcTimestamp)
        ensures
            r == self@.created_at,
    {
        self.created_at
    }

    /// The same task with another status; the title stays valid.
    pub fn with_status(&self, status: TaskStatus) -> (t: Task)
        ensures
            t@ == (TaskView { status, ..self@ }),
    {
        proof {
            use_type_invariant(self);
        }
        Task {
            id: self.id,
            user_id: self.user_id,
            title: self.title.clone(),
            status,
            priority: self.priority,
            deadline: self.deadline,
            created_at: self.created_at,
        }
    }
}

} // verus!
