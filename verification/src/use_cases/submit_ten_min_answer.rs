//! Answer to "are you working?": closes the open check and starts the next
//! slot.
use vstd::prelude::*;

use crate::error::DomainError;
use crate::hour_interval_state::{spec_work_stage_closed, HourIntervalState};
use crate::ids::{HourIntervalId, TaskId};
use crate::ten_min_check::{opt_text, CheckStatus, TenMinCheck, TenMinCheckView};
use crate::ten_min_check_state::{answer_status, TenMinCheckAnswer, TenMinCheckState};
use crate::text::owned;
use crate::use_cases::errors::{NotifierError, RepoError};
use crate::use_cases::support::{draft_check, spec_draft_check};
use crate::value_objects::UtcTimestamp;

verus! {

/// Why an answer was refused.
#[derive(Debug, Clone, PartialEq, Eq)]
pub enum SubmitTenMinAnswerError {
    /// The interval has no open check: there is nothing to answer.
    NoOpenCheck,
    /// A "no" answer needs a reason.
    ReasonRequired,
    Domain(DomainError),
    Repo(RepoError),
    Notifier(NotifierError),
}

/// What follows a closed check.
#[derive(Debug)]
pub enum NextSlot {
    /// A failed check starts nothing: a new slot waits for "ready to continue".
    Nothing,
    /// The fifth worked check earns the rest: this rest check starts now
    /// (under the task of the closed check) and the user is told to rest.
    Rest { draft: TenMinCheck, message: String },
    /// Another work check starts now, under the task now in progress.
    Work { draft: TenMinCheck },
}

/// Text sent when the rest begins.
pub open spec fn rest_message() -> Seq<char> {
    "Ты молодец, отдыхай 10 минут"@
}

/// Statuses of the closed checks of a sequence, in its order.
pub open spec fn closed_statuses(checks: Seq<TenMinCheck>) -> Seq<CheckStatus>
    decreases checks.len(),
{
    if checks.len() == 0 {
        Seq::empty()
    } else {
        let prev = closed_statuses(checks.drop_last());
        if checks.last()@.ended_at is Some {
            prev.push(checks.last()@.status)
        } else {
            prev
        }
    }
}

/// Closes the open check of an interval with the user's answer; on "yes"
/// the next slot starts right away (rest after the fifth worked check), on
/// "no" it starts only after "ready to continue".
pub struct SubmitTenMinAnswer;

impl SubmitTenMinAnswer {
    pub fn new() -> (u: Self) {
        SubmitTenMinAnswer
    }

    /// The open check closed at `now` with the answer. "No" needs a reason,
    /// which is kept; "yes" keeps none. The reason is checked before the
    /// open check.
    pub fn close(
        &self,
        answer: TenMinCheckAnswer,
        reason: Option<String>,
        open_check: Option<TenMinCheck>,
        now: UtcTimestamp,
    ) -> (r: Result<TenMinCheck, SubmitTenMinAnswerError>)
        ensures
            answer == TenMinCheckAnswer::No && reason is None ==> r == Err::<
                TenMinCheck,
                SubmitTenMinAnswerError,
            >(SubmitTenMinAnswerError::ReasonRequired),
            !(answer == TenMinCheckAnswer::No && reason is None) && open_check is None ==> r
                == Err::<TenMinCheck, SubmitTenMinAnswerError>(
                SubmitTenMinAnswerError::NoOpenCheck,
            ),
            !(answer == TenMinCheckAnswer::No && reason is None) ==> (open_check matches Some(open)
                ==> (r matches Ok(c) && c@ == (TenMinCheckView {
                ended_at: Some(now),
                status: answer_status(answer),
                reason: if answer == TenMinCheckAnswer::No {
                    opt_text(reason)
                } else {
                    None
                },
                ..open@
            }))),
    {
        if answer == TenMinCheckAnswer::No && reason.is_none() {
            return Err(SubmitTenMinAnswerError::ReasonRequired);
        }
        let open = match open_check {
            Some(c) => c,
            None => {
                return Err(SubmitTenMinAnswerError::NoOpenCheck);
            },
        };
        let status = match TenMinCheckState::Pending.submit_answer(answer) {
            Ok(TenMinCheckState::Closed(status)) => status,
            Ok(TenMinCheckState::Pending) => {
                return Err(SubmitTenMinAnswerError::Domain(DomainError::TenMinCheckAlreadyClosed));
            },
            Err(e) => {
                return Err(SubmitTenMinAnswerError::Domain(e));
            },
        };
        let persisted_reason = if answer == TenMinCheckAnswer::No {
            reason
        } else {
            None
        };
        Ok(
            TenMinCheck::new(
                open.id(),
                open.hour_interval_id(),
                open.task_id(),
                open.started_at(),
                Some(now),
                status,
                persisted_reason,
            ),
        )
    }

    /// The slot that follows `closed`, given all checks of the interval
    /// after the close and the task now in progress. Only a worked check
    /// starts a slot: the rest when the closed checks of the interval hold
    /// five worked ones, otherwise a work check, which needs a task in
    /// progress.
    pub fn next_slot(
        &self,
        interval_id: HourIntervalId,
        closed: &TenMinCheck,
        interval_checks: &Vec<TenMinCheck>,
        in_progress_task: Option<TaskId>,
        now: UtcTimestamp,
    ) -> (r: Result<NextSlot, SubmitTenMinAnswerError>)
        ensures
            closed@.status != CheckStatus::Worked ==> (r matches Ok(NextSlot::Nothing)),
            closed@.status == CheckStatus::Worked && spec_work_stage_closed(
                closed_statuses(interval_checks@),
            ) ==> (r matches Ok(NextSlot::Rest { draft, message }) && draft@ == spec_draft_check(
                interval_id,
                closed@.task_id,
                now,
            ) && message@ == rest_message()),
            closed@.status == CheckStatus::Worked && !spec_work_stage_closed(
                closed_statuses(interval_checks@),
            ) ==> (in_progress_task matches Some(task) ==> (r matches Ok(NextSlot::Work { draft })
                && draft@ == spec_draft_check(interval_id, task, now))) && (in_progress_task is None
                ==> r == Err::<NextSlot, SubmitTenMinAnswerError>(
                SubmitTenMinAnswerError::Repo(RepoError::NotFound),
            )),
    {
        if closed.status() != CheckStatus::Worked {
            return Ok(NextSlot::Nothing);
        }
        let mut statuses: Vec<CheckStatus> = Vec::new();
        let mut i: usize = 0;
        while i < interval_checks.len()
            invariant
                i <= interval_checks@.len(),
                statuses@ == closed_statuses(interval_checks@.take(i as int)),
            decreases interval_checks@.len() - i,
        {
            proof {
                assert(interval_checks@.take(i as int + 1).drop_last() =~= interval_checks@.take(i as int));
            }
            if interval_checks[i].ended_at().is_some() {
                statuses.push(interval_checks[i].status());
            }
            i = i + 1;
        }
        proof {
            assert(interval_checks@.take(i as int) =~= interval_checks@);
        }
        if HourIntervalState::is_work_stage_closed(statuses.as_slice()) {
            let draft = draft_check(interval_id, closed.task_id(), now);
            return Ok(NextSlot::Rest { draft, message: owned("Ты молодец, отдыхай 10 минут") });
        }
        match in_progress_task {
            Some(task) => Ok(NextSlot::Work { draft: draft_check(interval_id, task, now) }),
            None => Err(SubmitTenMinAnswerError::Repo(RepoError::NotFound)),
        }
    }
}

} // verus!
