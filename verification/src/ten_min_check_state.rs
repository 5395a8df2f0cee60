use vstd::prelude::*;

use crate::error::DomainError;
use crate::ten_min_check::CheckStatus;

verus! {

/// State machine of one ten-minute check: `Pending` (open) until it is closed
/// as `Worked`, `Failed` or `NoResponse`; closing is final.
#[derive(Debug, Clone, Copy, PartialEq, Eq, Structural)]
pub enum TenMinCheckState {
    Pending,
    Closed(CheckStatus),
}

/// The user's answer to "are you working?".
#[derive(Debug, Clone, Copy, PartialEq, Eq, Structural)]
pub enum TenMinCheckAnswer {
    Yes,
    No,
}

/// The status that an answer closes a check with.
pub open spec fn answer_status(answer: TenMinCheckAnswer) -> CheckStatus {
    match answer {
        TenMinCheckAnswer::Yes => CheckStatus::Worked,
        TenMinCheckAnswer::No => CheckStatus::Failed,
    }
}

impl TenMinCheckState {
    /// Closes an open check with the user's answer (yes: worked, no: failed);
    /// a closed check refuses.
    pub fn submit_answer(self, answer: TenMinCheckAnswer) -> (r: Result<TenMinCheckState, DomainError>)
        ensures
            self == TenMinCheckState::Pending ==> r == Ok::<TenMinCheckState, DomainError>(
                TenMinCheckState::Closed(answer_status(answer)),
            ),
            self is Closed ==> r == Err::<TenMinCheckState, DomainError>(
                DomainError::TenMinCheckAlreadyClosed,
            ),
    {
        match self {
            TenMinCheckState::Pending => Ok(
                TenMinCheckState::Closed(
                    match answer {
                        TenMinCheckAnswer::Yes => CheckStatus::Worked,
                        TenMinCheckAnswer::No => CheckStatus::Failed,
                    },
                ),
            ),
            TenMinCheckState::Closed(_) => Err(DomainError::TenMinCheckAlreadyClosed),
        }
    }

    /// Closes an open check as `NoResponse`; a closed check refuses.
    pub fn resolve_no_response(self) -> (r: Result<TenMinCheckState, DomainError>)
        ensures
            self == TenMinCheckState::Pending ==> r == Ok::<TenMinCheckState, DomainError>(
                TenMinCheckState::Closed(CheckStatus::NoResponse),
            ),
            self is Closed ==> r == Err::<TenMinCheckState, DomainError>(
                DomainError::TenMinCheckAlreadyClosed,
            ),
    {
        match self {
            TenMinCheckState::Pending => Ok(TenMinCheckState::Closed(CheckStatus::NoResponse)),
            TenMinCheckState::Closed(_) => Err(DomainError::TenMinCheckAlreadyClosed),
        }
    }
}

/// Whether a reason may still be written into a closed check: only into a
/// `NoResponse` check that has none yet (the user explains a silence late).
/// The status is checked first.
pub fn append_reason_to_no_response(status: CheckStatus, existing_reason: Option<&str>) -> (r: Result<(), DomainError>)
    ensures
        status != CheckStatus::NoResponse ==> r == Err::<(), DomainError>(
            DomainError::ReasonNotAllowedForStatus,
        ),
        status == CheckStatus::NoResponse && existing_reason is Some ==> r == Err::<(), DomainError>(
            DomainError::ReasonAlreadySet,
        ),
        status == CheckStatus::NoResponse && existing_reason is None ==> r == Ok::<(), DomainError>(()),
{
    if status != CheckStatus::NoResponse {
        return Err(DomainError::ReasonNotAllowedForStatus);
    }
    if existing_reason.is_some() {
        return Err(DomainError::ReasonAlreadySet);
    }
    Ok(())
}

} // verus!
