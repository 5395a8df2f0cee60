use vstd::prelude::*;

use crate::error::DomainError;
use crate::ids::{HourIntervalId, WorkDayId};
use crate::ten_min_check::opt_text;
use crate::ten_min_check::opt_str_text;
use crate::value_objects::UtcTimestamp;

verus! {

/// Upper bound of a successful count: five worked checks close the work stage.
pub const MAX_SUCCESSFUL: u8 = 5;

/// Number of worked ten-minute checks of an hour interval; never above five.
#[derive(Debug, Clone, Copy, PartialEq, Eq, Structural, PartialOrd, Ord, Hash)]
pub struct SuccessfulCount(u8);

impl SuccessfulCount {
    pub const MAX: u8 = 5;

    pub closed spec fn spec_value(self) -> u8 {
        self.0
    }

    #[verifier::type_invariant]
    spec fn at_most_five(self) -> bool {
        self.0 <= MAX_SUCCESSFUL
    }

    /// Accepts exactly 0..=5.
    pub fn new(value: u8) -> (r: Result<Self, DomainError>)
        ensures
            value <= MAX_SUCCESSFUL ==> (r matches Ok(c) && c.spec_value() == value),
            value > MAX_SUCCESSFUL ==> r == Err::<Self, DomainError>(
                DomainError::InvalidSuccessfulCount(value),
            ),
    {
        if value > MAX_SUCCESSFUL {
            return Err(DomainError::InvalidSuccessfulCount(value));
        }
        Ok(SuccessfulCount(value))
    }

    /// A count is its value: two counts with the same value are the same
    /// count (so `zero()` is `new(0)`).
    pub proof fn lemma_value_determines(a: Self, b: Self)
        requires
            a.spec_value() == b.spec_value(),
        ensures
            a == b,
    {
    }

    pub fn zero() -> (c: Self)
        ensures
            c.spec_value() == 0,
    {
        SuccessfulCount(0)
    }

    pub fn value(&self) -> (v: u8)
        ensures
            v == self.spec_value(),
            v <= MAX_SUCCESSFUL,
    {
        proof {
            use_type_invariant(self);
        }
        self.0
    }
}

/// An hour interval of a work day. It does not name a task: its checks may
/// belong to different tasks.
#[derive(Debug, PartialEq, Eq)]
pub struct HourInterval {
    id: HourIntervalId,
    work_day_id: WorkDayId,
    started_at: UtcTimestamp,
    ended_at: Option<UtcTimestamp>,
    successful_count: SuccessfulCount,
    summary: Option<String>,
}

impl Clone for HourInterval {
    fn clone(&self) -> (h: Self)
        ensures
            h@ == self@,
    {
        HourInterval {
            id: self.id,
            work_day_id: self.work_day_id,
            started_at: self.started_at,
            ended_at: self.ended_at,
            successful_count: self.successful_count,
            summary: self.summary_owned(),
        }
    }
}

/// The fields of an hour interval.
pub struct HourIntervalView {
    pub id: HourIntervalId,
    pub work_day_id: WorkDayId,
    pub started_at: UtcTimestamp,
    pub ended_at: Option<UtcTimestamp>,
    pub successful_count: SuccessfulCount,
    pub summary: Option<Seq<char>>,
}

impl View for HourInterval {
    type V = HourIntervalView;

    closed spec fn view(&self) -> HourIntervalView {
        HourIntervalView {
            id: self.id,
            work_day_id: self.work_day_id,
            started_at: self.started_at,
            ended_at: self.ended_at,
            successful_count: self.successful_count,
            summary: opt_text(self.summary),
        }
    }
}

impl HourInterval {
    pub fn new(
        id: HourIntervalId,
        work_day_id: WorkDayId,
        started_at: UtcTimestamp,
        ended_at: Option<UtcTimestamp>,
        successful_count: SuccessfulCount,
        summary: Option<String>,
    ) -> (h: Self)
        ensures
            h@ == (HourIntervalView {
                id,
                work_day_id,
                started_at,
                ended_at,
                successful_count,
                summary: opt_text(summary),
            }),
    {
        HourInterval { id, work_day_id, started_at, ended_at, successful_count, summary }
    }

    pub fn id(&self) -> (r: HourIntervalId)
        ensures
            r == self@.id,
    {
        self.id
    }

    pub fn work_day_id(&self) -> (r: WorkDayId)
        ensures
            r == self@.work_day_id,
    {
        self.work_day_id
    }

    pub fn started_at(&self) -> (r: UtcTimestamp)
        ensures
            r == self@.started_at,
    {
        self.started_at
    }

    pub fn ended_at(&self) -> (r: Option<UtcTimestamp>)
        ensures
            r == self@.ended_at,
    {
        self.ended_at
    }

    pub fn successful_count(&self) -> (r: SuccessfulCount)
        ensures
            r == self@.successful_count,
    {
        self.successful_count
    }

    pub fn summary(&self) -> (r: Option<&str>)
        ensures
            opt_str_text(r) == self@.summary,
    {
        match &self.summary {
            Some(text) => Some(text.as_str()),
            None => None,
        }
    }

    /// A copy of the summary, as an owned string.
    pub fn summary_owned(&self) -> (r: Option<String>)
        ensures
            opt_text(r) == self@.summary,
    {
        match &self.summary {
            Some(text) => Some(text.clone()),
            None => None,
        }
    }
}

} // verus!
