//! Commands on the work day: register, start the day, lunch, start an
//! interval.
use vstd::prelude::*;

use crate::hour_interval::{HourInterval, SuccessfulCount};
use crate::ids::{HourIntervalId, TaskId, WorkDayId};
use crate::ten_min_check::TenMinCheck;
use crate::use_cases::errors::RepoError;
use crate::use_cases::support::{draft_check, spec_draft_check};
use crate::user::User;
use crate::value_objects::{TelegramId, TimeZoneOffset, UtcTimestamp};
use crate::work_day::{WorkDay, WorkDayView};

verus! {

/// Some interval of the day is still running.
pub open spec fn spec_has_open_interval(intervals: Seq<HourInterval>) -> bool {
    exists|i: int| 0 <= i < intervals.len() && (#[trigger] intervals[i])@.ended_at is None
}

/// Whether some interval of the day is still running.
pub fn has_open_interval(intervals: &Vec<HourInterval>) -> (b: bool)
    ensures
        b == spec_has_open_interval(intervals@),
{
    let mut i: usize = 0;
    while i < intervals.len()
        invariant
            i <= intervals@.len(),
            forall|k: int| 0 <= k < i ==> (#[trigger] intervals@[k])@.ended_at is Some,
        decreases intervals@.len() - i,
    {
        if intervals[i].ended_at().is_none() {
            return true;
        }
        i = i + 1;
    }
    false
}

/// Makes sure every user who writes to the bot has a row: an existing user
/// is kept, a new one starts in UTC (the timezone can be changed later).
pub struct RegisterUserIfNotExists;

impl RegisterUserIfNotExists {
    pub fn new() -> (u: Self) {
        RegisterUserIfNotExists
    }

    /// The user, and whether it is new and must be stored.
    pub fn execute(&self, existing: Option<User>, telegram_id: TelegramId, now: UtcTimestamp) -> (r: (User, bool))
        ensures
            existing matches Some(u) ==> r.0 == u && !r.1,
            existing is None ==> r.1 && r.0@.telegram_id == telegram_id
                && r.0@.timezone.spec_minutes() == 0 && r.0@.created_at == now,
    {
        match existing {
            Some(user) => (user, false),
            None => (User::new(telegram_id, TimeZoneOffset::default(), now), true),
        }
    }
}

/// Why `/start_day` failed.
#[derive(Debug, Clone, PartialEq, Eq)]
pub enum StartWorkDayError {
    /// The user already has an open day.
    AlreadyOpen,
    Repo(RepoError),
}

/// `/start_day`: opens a new work day unless one is open.
pub struct StartWorkDay;

impl StartWorkDay {
    pub fn new() -> (u: Self) {
        StartWorkDay
    }

    /// The day to store (its id is assigned by storage).
    pub fn execute(&self, user_id: TelegramId, open_day: Option<WorkDay>, now: UtcTimestamp) -> (r: Result<WorkDay, StartWorkDayError>)
        ensures
            open_day is Some ==> r == Err::<WorkDay, StartWorkDayError>(StartWorkDayError::AlreadyOpen),
            open_day is None ==> (r matches Ok(d) && d@ == (WorkDayView {
                id: WorkDayId::spec_placeholder(),
                user_id,
                started_at: now,
                finished_at: None,
                lunch_started_at: None,
                lunch_ended_at: None,
            })),
    {
        if open_day.is_some() {
            return Err(StartWorkDayError::AlreadyOpen);
        }
        let id = WorkDayId::new(0);
        proof {
            WorkDayId::lemma_placeholder(id);
        }
        Ok(WorkDay::new(id, user_id, now, None, None, None))
    }
}

/// Why lunch could not start.
#[derive(Debug, Clone, PartialEq, Eq)]
pub enum StartLunchError {
    /// Lunch only starts between intervals.
    ActiveIntervalOpen,
    /// Lunch has started and not ended.
    AlreadyStarted,
    Repo(RepoError),
}

/// "Going to lunch": records the start of lunch, only between intervals.
pub struct StartLunch;

impl StartLunch {
    pub fn new() -> (u: Self) {
        StartLunch
    }

    /// The day with lunch started now (a new lunch clears an earlier end).
    /// A lunch in progress is refused before an open interval is.
    pub fn execute(&self, work_day: Option<WorkDay>, interval_open: bool, now: UtcTimestamp) -> (r: Result<WorkDay, StartLunchError>)
        ensures
            work_day is None ==> r == Err::<WorkDay, StartLunchError>(
                StartLunchError::Repo(RepoError::NotFound),
            ),
            work_day matches Some(d) ==> ((d@.lunch_started_at is Some && d@.lunch_ended_at is None)
                ==> r == Err::<WorkDay, StartLunchError>(StartLunchError::AlreadyStarted)),
            work_day matches Some(d) ==> (!(d@.lunch_started_at is Some && d@.lunch_ended_at is None)
                && interval_open ==> r == Err::<WorkDay, StartLunchError>(
                StartLunchError::ActiveIntervalOpen,
            )),
            work_day matches Some(d) ==> (!(d@.lunch_started_at is Some && d@.lunch_ended_at is None)
                && !interval_open ==> (r matches Ok(u) && u@ == (WorkDayView {
                lunch_started_at: Some(now),
                lunch_ended_at: None,
                ..d@
            }))),
    {
        let day = match work_day {
            Some(d) => d,
            None => {
                return Err(StartLunchError::Repo(RepoError::NotFound));
            },
        };
        if day.lunch_started_at().is_some() && day.lunch_ended_at().is_none() {
            return Err(StartLunchError::AlreadyStarted);
        }
        if interval_open {
            return Err(StartLunchError::ActiveIntervalOpen);
        }
        Ok(WorkDay::new(day.id(), day.user_id(), day.started_at(), day.finished_at(), Some(now), None))
    }
}

/// Why lunch could not end.
#[derive(Debug, Clone, PartialEq, Eq)]
pub enum EndLunchError {
    /// Lunch was not started.
    NotStarted,
    /// Lunch already ended.
    AlreadyEnded,
    Repo(RepoError),
}

/// "Back from lunch": records the end of lunch.
pub struct EndLunch;

impl EndLunch {
    pub fn new() -> (u: Self) {
        EndLunch
    }

    /// The day with lunch ended now, its start kept.
    pub fn execute(&self, work_day: Option<WorkDay>, now: UtcTimestamp) -> (r: Result<WorkDay, EndLunchError>)
        ensures
            work_day is None ==> r == Err::<WorkDay, EndLunchError>(EndLunchError::Repo(RepoError::NotFound)),
            work_day matches Some(d) ==> (d@.lunch_started_at is None ==> r == Err::<
                WorkDay,
                EndLunchError,
            >(EndLunchError::NotStarted)),
            work_day matches Some(d) ==> (d@.lunch_started_at is Some && d@.lunch_ended_at is Some
                ==> r == Err::<WorkDay, EndLunchError>(EndLunchError::AlreadyEnded)),
            work_day matches Some(d) ==> (d@.lunch_started_at is Some && d@.lunch_ended_at is None
                ==> (r matches Ok(u) && u@ == (WorkDayView { lunch_ended_at: Some(now), ..d@ }))),
    {
        let day = match work_day {
            Some(d) => d,
            None => {
                return Err(EndLunchError::Repo(RepoError::NotFound));
            },
        };
        if day.lunch_started_at().is_none() {
            return Err(EndLunchError::NotStarted);
        }
        if day.lunch_ended_at().is_some() {
            return Err(EndLunchError::AlreadyEnded);
        }
        Ok(WorkDay::new(day.id(), day.user_id(), day.started_at(), day.finished_at(), day.lunch_started_at(), Some(now)))
    }
}

/// Why an interval could not start.
#[derive(Debug, Clone, PartialEq, Eq)]
pub enum StartHourIntervalError {
    /// The previous interval of the day is still open: intervals never start
    /// by themselves and never overlap.
    PreviousIntervalNotClosed,
    Repo(RepoError),
}

/// Starts an hour interval, only on the user's command: the chosen task goes
/// in progress and the first check of the hour starts at once.
pub struct StartHourInterval;

impl StartHourInterval {
    pub fn new() -> (u: Self) {
        StartHourInterval
    }

    /// The interval to store (its id is assigned by storage), unless an
    /// interval of the day is still open.
    pub fn execute(&self, work_day_id: WorkDayId, interval_open: bool, now: UtcTimestamp) -> (r: Result<HourInterval, StartHourIntervalError>)
        ensures
            interval_open ==> r == Err::<HourInterval, StartHourIntervalError>(
                StartHourIntervalError::PreviousIntervalNotClosed,
            ),
            !interval_open ==> (r matches Ok(h) && h@.id == HourIntervalId::spec_placeholder()
                && h@.work_day_id == work_day_id && h@.started_at == now && h@.ended_at is None
                && h@.successful_count.spec_value() == 0 && h@.summary is None),
    {
        if interval_open {
            return Err(StartHourIntervalError::PreviousIntervalNotClosed);
        }
        let id = HourIntervalId::new(0);
        proof {
            HourIntervalId::lemma_placeholder(id);
        }
        Ok(HourInterval::new(id, work_day_id, now, None, SuccessfulCount::zero(), None))
    }

    /// The first check of the stored interval, for the chosen task.
    pub fn first_check(&self, interval_id: HourIntervalId, task_id: TaskId, now: UtcTimestamp) -> (c: TenMinCheck)
        ensures
            c@ == spec_draft_check(interval_id, task_id, now),
    {
        draft_check(interval_id, task_id, now)
    }
}

} // verus!
