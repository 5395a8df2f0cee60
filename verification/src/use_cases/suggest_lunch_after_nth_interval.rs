//! The lunch suggestion after the fourth closed interval.
use vstd::prelude::*;

use crate::decisions::{LunchSuggestionDecision, LUNCH_SUGGESTION_AFTER_INTERVALS};
use crate::hour_interval::HourInterval;
use crate::text::owned;
use crate::use_cases::errors::{NotifierError, RepoError};
use crate::use_cases::finish_work_day::{closed_interval_count, spec_closed_count};

verus! {

/// Why the lunch suggestion failed.
#[derive(Debug, Clone, PartialEq, Eq)]
pub enum SuggestLunchAfterNthIntervalError {
    Repo(RepoError),
    Notifier(NotifierError),
}

/// Text of the lunch suggestion.
pub open spec fn lunch_message() -> Seq<char> {
    "4 интервала позади, не пора ли пообедать?"@
}

/// Called after an interval is closed: when the day holds exactly four
/// closed intervals, suggests lunch. The suggestion may be ignored; it does
/// not block the next interval.
pub struct SuggestLunchAfterNthInterval;

impl SuggestLunchAfterNthInterval {
    pub fn new() -> (u: Self) {
        SuggestLunchAfterNthInterval
    }

    /// The suggestion to send, from all intervals of the day.
    pub fn execute(&self, intervals: &Vec<HourInterval>) -> (r: Option<String>)
        ensures
            spec_closed_count(intervals@) == LUNCH_SUGGESTION_AFTER_INTERVALS ==> (r matches Some(
                text,
            ) && text@ == lunch_message()),
            spec_closed_count(intervals@) != LUNCH_SUGGESTION_AFTER_INTERVALS ==> r is None,
    {
        if !LunchSuggestionDecision::decide(closed_interval_count(intervals)) {
            return None;
        }
        Some(owned("4 интервала позади, не пора ли пообедать?"))
    }
}

} // verus!
