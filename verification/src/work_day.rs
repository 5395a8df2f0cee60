use vstd::prelude::*;

use crate::ids::WorkDayId;
use crate::value_objects::{TelegramId, UtcTimestamp};

verus! {

/// A work day of a user: open until `finished_at` is set; lunch is recorded
/// by its start and end.
#[derive(Debug, Clone, Copy, PartialEq, Eq, Structural)]
pub struct WorkDay {
    id: WorkDayId,
    user_id: TelegramId,
    started_at: UtcTimestamp,
    finished_at: Option<UtcTimestamp>,
    lunch_started_at: Option<UtcTimestamp>,
    lunch_ended_at: Option<UtcTimestamp>,
}

/// The fields of a work day.
pub struct WorkDayView {
    pub id: WorkDayId,
    pub user_id: TelegramId,
    pub started_at: UtcTimestamp,
    pub finished_at: Option<UtcTimestamp>,
    pub lunch_started_at: Option<UtcTimestamp>,
    pub lunch_ended_at: Option<UtcTimestamp>,
}

impl View for WorkDay {
    type V = WorkDayView;

    closed spec fn view(&self) -> WorkDayView {
        WorkDayView {
            id: self.id,
            user_id: self.user_id,
            started_at: self.started_at,
            finished_at: self.finished_at,
            lunch_started_at: self.lunch_started_at,
            lunch_ended_at: self.lunch_ended_at,
        }
    }
}

impl WorkDay {
    pub fn new(
        id: WorkDayId,
        user_id: TelegramId,
        started_at: UtcTimestamp,
        finished_at: Option<UtcTimestamp>,
        lunch_started_at: Option<UtcTimestamp>,
        lunch_ended_at: Option<UtcTimestamp>,
    ) -> (w: Self)
        ensures
            w@ == (WorkDayView {
                id,
                user_id,
                started_at,
                finished_at,
                lunch_started_at,
                lunch_ended_at,
            }),
    {
        WorkDay { id, user_id, started_at, finished_at, lunch_started_at, lunch_ended_at }
    }

    pub fn id(&self) -> (r: WorkDayId)
        ensures
            r == self@.id,
    {
        self.id
    }

    pub fn user_id(&self) -> (r: TelegramId)
        ensures
            r == self@.user_id,
    {
        self.user_id
    }

    pub fn started_at(&self) -> (r: UtcTimestamp)
        ensures
            r == self@.started_at,
    {
        self.started_at
    }

    pub fn finished_at(&self) -> (r: Option<UtcTimestamp>)
        ensures
            r == self@.finished_at,
    {
        self.finished_at
    }

    pub fn lunch_started_at(&self) -> (r: Option<UtcTimestamp>)
        ensures
            r == self@.lunch_started_at,
    {
        self.lunch_started_at
    }

    pub fn lunch_ended_at(&self) -> (r: Option<UtcTimestamp>)
        ensures
            r == self@.lunch_ended_at,
    {
        self.lunch_ended_at
    }
}

} // verus!
