//! Closing an hour interval with its summary.
use vstd::prelude::*;

use crate::error::DomainError;
use crate::hour_interval::{HourInterval, SuccessfulCount};
use crate::ten_min_check::TenMinCheck;
use crate::hour_interval_state::{spec_successful_count, HourIntervalState};
use crate::text::{decimal_text, i64_to_decimal, owned, push_text};
use crate::use_cases::errors::{NotifierError, RepoError};
use crate::use_cases::support::{classify_checks, in_start_order, lemma_classification_shape, spec_classify};
use crate::value_objects::UtcTimestamp;

verus! {

/// Why an interval could not be closed.
#[derive(Debug, Clone, PartialEq, Eq)]
pub enum FinishHourIntervalError {
    /// The interval is already closed.
    AlreadyClosed,
    Domain(DomainError),
    Repo(RepoError),
    Notifier(NotifierError),
}

/// Text sent when an interval is closed with `count` worked checks.
pub open spec fn interval_finished_message(count: u8) -> Seq<char> {
    "Интервал завершён: "@ + decimal_text(count as nat) + "/5"@
}

/// Closes an interval at `now` with the count of its closed worked checks
/// (five in the normal course), keeps the required summary, and reports the
/// count to the user.
pub struct FinishHourInterval;

impl FinishHourInterval {
    pub fn new() -> (u: Self) {
        FinishHourInterval
    }

    /// The closed interval and the text to send.
    pub fn execute(
        &self,
        interval: Option<HourInterval>,
        checks: &Vec<TenMinCheck>,
        summary: String,
        now: UtcTimestamp,
    ) -> (r: Result<(HourInterval, String), FinishHourIntervalError>)
        ensures
            interval is None ==> r == Err::<(HourInterval, String), FinishHourIntervalError>(
                FinishHourIntervalError::Repo(RepoError::NotFound),
            ),
            interval matches Some(h) ==> (h@.ended_at is Some ==> r == Err::<
                (HourInterval, String),
                FinishHourIntervalError,
            >(FinishHourIntervalError::AlreadyClosed)) && (h@.ended_at is None ==> (r matches Ok(
                done,
            ) && done.0@.id == h@.id && done.0@.work_day_id == h@.work_day_id
                && done.0@.started_at == h@.started_at && done.0@.ended_at == Some(now)
                && done.0@.successful_count.spec_value() == spec_successful_count(
                spec_classify(checks@).closed_work_statuses,
            ) && done.0@.summary == Some(summary@) && done.1@ == interval_finished_message(
                done.0@.successful_count.spec_value(),
            ))),
    {
        let interval = match interval {
            Some(h) => h,
            None => {
                return Err(FinishHourIntervalError::Repo(RepoError::NotFound));
            },
        };
        if interval.ended_at().is_some() {
            return Err(FinishHourIntervalError::AlreadyClosed);
        }
        let classified = classify_checks(checks);
        proof {
            lemma_classification_shape(in_start_order(checks@));
            crate::hour_interval_state::lemma_count_worked_bounded(classified.closed_work_statuses@);
        }
        let count = HourIntervalState::successful_count(classified.closed_work_statuses.as_slice());
        let successful = match SuccessfulCount::new(count) {
            Ok(c) => c,
            Err(e) => {
                return Err(FinishHourIntervalError::Domain(e));
            },
        };
        let updated = HourInterval::new(
            interval.id(),
            interval.work_day_id(),
            interval.started_at(),
            Some(now),
            successful,
            Some(summary),
        );
        let mut text = owned("Интервал завершён: ");
        let count_text = i64_to_decimal(successful.value() as i64);
        push_text(&mut text, count_text.as_str());
        push_text(&mut text, "/5");
        proof {
            assert(text@ =~= interval_finished_message(successful.spec_value()));
        }
        Ok((updated, text))
    }
}

} // verus!
