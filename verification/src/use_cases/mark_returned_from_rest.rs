//! "I'm back" from the rest slot.
use vstd::prelude::*;

use crate::ten_min_check::{TenMinCheck, TenMinCheckView};
use crate::use_cases::errors::RepoError;
use crate::use_cases::support::{is_rest_check, spec_is_rest_check};
use crate::value_objects::UtcTimestamp;

verus! {

/// Why "I'm back" was refused.
#[derive(Debug, Clone, PartialEq, Eq)]
pub enum MarkReturnedFromRestError {
    /// The interval has no open rest check.
    NoOpenRestCheck,
    Repo(RepoError),
}

/// Closes the open rest check at `now`, however long the rest ran: an
/// overlong rest is recorded as it was, neither failed nor explained.
pub struct MarkReturnedFromRest;

impl MarkReturnedFromRest {
    pub fn new() -> (u: Self) {
        MarkReturnedFromRest
    }

    /// The closed rest check, from the open check of the interval and all
    /// its checks.
    pub fn execute(&self, open_check: Option<TenMinCheck>, siblings: &Vec<TenMinCheck>, now: UtcTimestamp) -> (r: Result<TenMinCheck, MarkReturnedFromRestError>)
        ensures
            open_check is None ==> r == Err::<TenMinCheck, MarkReturnedFromRestError>(
                MarkReturnedFromRestError::NoOpenRestCheck,
            ),
            open_check matches Some(open) ==> (!spec_is_rest_check(open@.id, siblings@) ==> r
                == Err::<TenMinCheck, MarkReturnedFromRestError>(
                MarkReturnedFromRestError::NoOpenRestCheck,
            )) && (spec_is_rest_check(open@.id, siblings@) ==> (r matches Ok(c) && c@ == (
            TenMinCheckView { ended_at: Some(now), reason: None, ..open@ }))),
    {
        let open = match open_check {
            Some(c) => c,
            None => {
                return Err(MarkReturnedFromRestError::NoOpenRestCheck);
            },
        };
        if !is_rest_check(open.id(), siblings) {
            return Err(MarkReturnedFromRestError::NoOpenRestCheck);
        }
        Ok(
            TenMinCheck::new(
                open.id(),
                open.hour_interval_id(),
                open.task_id(),
                open.started_at(),
                Some(now),
                open.status(),
                None,
            ),
        )
    }
}

} // verus!
