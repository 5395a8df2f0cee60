//! "Ready to continue?" after a failed slot.
use vstd::prelude::*;

use crate::ids::{HourIntervalId, TaskId};
use crate::ten_min_check::{CheckStatus, TenMinCheck, TenMinCheckView};
use crate::use_cases::errors::RepoError;
use crate::use_cases::support::{draft_check, spec_draft_check};
use crate::value_objects::UtcTimestamp;

verus! {

/// Why "ready to continue" was refused.
#[derive(Debug, Clone, PartialEq, Eq)]
pub enum ConfirmReadyToContinueError {
    /// The last check of the interval is not a closed failure: a new check
    /// already runs, or the interval was forced closed.
    NothingToConfirm,
    Repo(RepoError),
}

/// The check waits for the user to resume: closed as `Failed` or
/// `NoResponse`.
pub open spec fn is_awaiting_resume(check: TenMinCheckView) -> bool {
    check.ended_at is Some && (check.status == CheckStatus::Failed || check.status
        == CheckStatus::NoResponse)
}

/// After any failure, the confirmation starts a new work check at the moment
/// of the confirmation (not at the close of the failed one).
pub struct ConfirmReadyToContinue;

impl ConfirmReadyToContinue {
    pub fn new() -> (u: Self) {
        ConfirmReadyToContinue
    }

    /// The new check, from the last check of the interval and the task now
    /// in progress.
    pub fn execute(
        &self,
        interval_id: HourIntervalId,
        last_check: Option<TenMinCheck>,
        in_progress_task: Option<TaskId>,
        now: UtcTimestamp,
    ) -> (r: Result<TenMinCheck, ConfirmReadyToContinueError>)
        ensures
            last_check is None ==> r == Err::<TenMinCheck, ConfirmReadyToContinueError>(
                ConfirmReadyToContinueError::Repo(RepoError::NotFound),
            ),
            last_check matches Some(last) ==> (!is_awaiting_resume(last@) ==> r == Err::<
                TenMinCheck,
                ConfirmReadyToContinueError,
            >(ConfirmReadyToContinueError::NothingToConfirm)) && (is_awaiting_resume(last@)
                ==> (in_progress_task is None ==> r == Err::<
                TenMinCheck,
                ConfirmReadyToContinueError,
            >(ConfirmReadyToContinueError::Repo(RepoError::NotFound))) && (in_progress_task matches Some(
                task,
            ) ==> (r matches Ok(c) && c@ == spec_draft_check(interval_id, task, now)))),
    {
        let last = match last_check {
            Some(c) => c,
            None => {
                return Err(ConfirmReadyToContinueError::Repo(RepoError::NotFound));
            },
        };
        let awaiting = last.ended_at().is_some() && (last.status() == CheckStatus::Failed
            || last.status() == CheckStatus::NoResponse);
        if !awaiting {
            return Err(ConfirmReadyToContinueError::NothingToConfirm);
        }
        match in_progress_task {
            Some(task) => Ok(draft_check(interval_id, task, now)),
            None => Err(ConfirmReadyToContinueError::Repo(RepoError::NotFound)),
        }
    }
}

} // verus!
