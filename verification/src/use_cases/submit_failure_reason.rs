//! A late explanation of a silence.
use vstd::prelude::*;

use crate::error::DomainError;
use crate::ten_min_check::{CheckStatus, TenMinCheck, TenMinCheckView};
use crate::ten_min_check_state::append_reason_to_no_response;
use crate::use_cases::errors::RepoError;

verus! {

/// Why the reason was refused.
#[derive(Debug, Clone, PartialEq, Eq)]
pub enum SubmitFailureReasonError {
    Domain(DomainError),
    Repo(RepoError),
}

/// Writes `reason` into a check already closed as `NoResponse` without a
/// reason: the user finally answered and explained what happened. The close
/// time and the status stay as they were; this is the only change a closed
/// check accepts.
pub struct SubmitFailureReason;

impl SubmitFailureReason {
    pub fn new() -> (u: Self) {
        SubmitFailureReason
    }

    /// The check with its reason, from the check found (`None` when not
    /// found).
    pub fn execute(&self, check: Option<TenMinCheck>, reason: String) -> (r: Result<TenMinCheck, SubmitFailureReasonError>)
        ensures
            check is None ==> r == Err::<TenMinCheck, SubmitFailureReasonError>(
                SubmitFailureReasonError::Repo(RepoError::NotFound),
            ),
            check matches Some(c) ==> {
                &&& c@.status != CheckStatus::NoResponse ==> r == Err::<TenMinCheck, SubmitFailureReasonError>(
                    SubmitFailureReasonError::Domain(DomainError::ReasonNotAllowedForStatus),
                )
                &&& c@.status == CheckStatus::NoResponse && c@.reason is Some ==> r == Err::<
                    TenMinCheck,
                    SubmitFailureReasonError,
                >(SubmitFailureReasonError::Domain(DomainError::ReasonAlreadySet))
                &&& c@.status == CheckStatus::NoResponse && c@.reason is None ==> (r matches Ok(updated)
                    && updated@ == (TenMinCheckView { reason: Some(reason@), ..c@ }))
            },
    {
        let c = match check {
            Some(c) => c,
            None => {
                return Err(SubmitFailureReasonError::Repo(RepoError::NotFound));
            },
        };
        match append_reason_to_no_response(c.status(), c.reason()) {
            Err(e) => Err(SubmitFailureReasonError::Domain(e)),
            Ok(()) => Ok(
                TenMinCheck::new(
                    c.id(),
                    c.hour_interval_id(),
                    c.task_id(),
                    c.started_at(),
                    c.ended_at(),
                    c.status(),
                    Some(reason),
                ),
            ),
        }
    }
}

} // verus!
