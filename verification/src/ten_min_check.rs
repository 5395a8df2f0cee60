use vstd::prelude::*;

use crate::ids::{HourIntervalId, TaskId, TenMinCheckId};
use crate::value_objects::UtcTimestamp;

verus! {

/// Outcome of one ten-minute check.
#[derive(Debug, Clone, Copy, PartialEq, Eq, Structural)]
pub enum CheckStatus {
    Worked,
    Failed,
    NoResponse,
}

/// The text of an optional string, as characters.
pub open spec fn opt_text(s: Option<String>) -> Option<Seq<char>> {
    match s {
        Some(t) => Some(t@),
        None => None,
    }
}

/// The text of an optional string slice, as characters.
pub open spec fn opt_str_text(s: Option<&str>) -> Option<Seq<char>> {
    match s {
        Some(t) => Some(t@),
        None => None,
    }
}

/// A ten-minute check inside an hour interval. It records the task that was
/// active while it ran: the checks of one interval may belong to different
/// tasks.
#[derive(Debug, PartialEq, Eq)]
pub struct TenMinCheck {
    id: TenMinCheckId,
    hour_interval_id: HourIntervalId,
    task_id: TaskId,
    started_at: UtcTimestamp,
    ended_at: Option<UtcTimestamp>,
    status: CheckStatus,
    reason: Option<String>,
}

impl Clone for TenMinCheck {
    fn clone(&self) -> (c: Self)
        ensures
            c@ == self@,
    {
        TenMinCheck {
            id: self.id,
            hour_interval_id: self.hour_interval_id,
            task_id: self.task_id,
            started_at: self.started_at,
            ended_at: self.ended_at,
            status: self.status,
            reason: self.reason_owned(),
        }
    }
}

/// The fields of a ten-minute check.
pub struct TenMinCheckView {
    pub id: TenMinCheckId,
    pub hour_interval_id: HourIntervalId,
    pub task_id: TaskId,
    pub started_at: UtcTimestamp,
    pub ended_at: Option<UtcTimestamp>,
    pub status: CheckStatus,
    pub reason: Option<Seq<char>>,
}

impl View for TenMinCheck {
    type V = TenMinCheckView;

    closed spec fn view(&self) -> TenMinCheckView {
        TenMinCheckView {
            id: self.id,
            hour_interval_id: self.hour_interval_id,
            task_id: self.task_id,
            started_at: self.started_at,
            ended_at: self.ended_at,
            status: self.status,
            reason: opt_text(self.reason),
        }
    }
}

impl TenMinCheck {
    pub fn new(
        id: TenMinCheckId,
        hour_interval_id: HourIntervalId,
        task_id: TaskId,
        started_at: UtcTimestamp,
        ended_at: Option<UtcTimestamp>,
        status: CheckStatus,
        reason: Option<String>,
    ) -> (c: Self)
        ensures
            c@ == (TenMinCheckView {
                id,
                hour_interval_id,
                task_id,
                started_at,
                ended_at,
                status,
                reason: opt_text(reason),
            }),
    {
        TenMinCheck { id, hour_interval_id, task_id, started_at, ended_at, status, reason }
    }

    pub fn id(&self) -> (r: TenMinCheckId)
        ensures
            r == self@.id,
    {
        self.id
    }

    pub fn hour_interval_id(&self) -> (r: HourIntervalId)
        ensures
            r == self@.hour_interval_id,
    {
        self.hour_interval_id
    }

    pub fn task_id(&self) -> (r: TaskId)
        ensures
            r == self@.task_id,
    {
        self.task_id
    }

    pub fn started_at(&self) -> (r: UtcTimestamp)
        ensures
            r == self@.started_at,
    {
        self.started_at
    }

    pub fn ended_at(&self) -> (r: Option<UtcTimestamp>)
        ensures
            r == self@.ended_at,
    {
        self.ended_at
    }

    pub fn status(&self) -> (r: CheckStatus)
        ensures
            r == self@.status,
    {
        self.status
    }

    pub fn reason(&self) -> (r: Option<&str>)
        ensures
            opt_str_text(r) == self@.reason,
    {
        match &self.reason {
            Some(text) => Some(text.as_str()),
            None => None,
        }
    }

    /// A copy of the reason, as an owned string.
    pub fn reason_owned(&self) -> (r: Option<String>)
        ensures
            opt_text(r) == self@.reason,
    {
        match &self.reason {
            Some(text) => Some(text.clone()),
            None => None,
        }
    }
}

} // verus!
