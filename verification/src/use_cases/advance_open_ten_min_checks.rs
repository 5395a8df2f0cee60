//! One tick of the polling loop over the open checks.
use vstd::prelude::*;

use crate::decisions::{
    spec_reminder_due, spec_work_slot_outcome, ReminderScheduleDecision, WorkSlotPollDecision,
    WorkSlotPollOutcome,
};
use crate::ten_min_check::{CheckStatus, TenMinCheck, TenMinCheckView};
use crate::text::owned;
use crate::time_calculations::TEN_MIN_NOMINAL_MINUTES;
use crate::use_cases::config::ReminderScheduleConfig;
use crate::use_cases::errors::{NotifierError, RepoError};
use crate::use_cases::support::{is_rest_check, spec_is_rest_check};
use crate::value_objects::{Duration, UtcTimestamp, MAX_TIMESTAMP_MILLIS};

verus! {

/// Why a tick failed.
#[derive(Debug, Clone, PartialEq, Eq)]
pub enum AdvanceOpenTenMinChecksError {
    Repo(RepoError),
    Notifier(NotifierError),
}

/// What a tick does with one open check.
#[derive(Debug)]
pub enum OpenCheckAction {
    /// Nothing yet.
    Nothing,
    /// Ask "are you working?" and record the moment of the question (the
    /// check stays open).
    AskAreYouWorking { message: String, asked_at: UtcTimestamp },
    /// The question went unanswered: store this closed check (closed as
    /// `NoResponse` at its nominal end, without reason), and clear the
    /// moment of the question.
    ResolveNoResponse { closed: TenMinCheck },
    /// The rest ran over: remind the user and record the moment of the
    /// reminder (the rest check stays open until "I'm back").
    RemindRestOverrun { message: String, reminded_at: UtcTimestamp },
}

/// Text of the question.
pub open spec fn ask_message() -> Seq<char> {
    "Ты работаешь?"@
}

/// Text of the overlong-rest reminder.
pub open spec fn rest_overrun_message() -> Seq<char> {
    "Перерыв затянулся, ты вернулся?"@
}

/// Milliseconds in the nominal ten minutes of a check.
pub open spec fn nominal_check_millis() -> int {
    600_000
}

/// `closed` is `check` closed as `NoResponse` at its nominal end, without
/// reason.
pub open spec fn closed_as_silent(closed: TenMinCheckView, check: TenMinCheckView) -> bool {
    &&& closed.id == check.id
    &&& closed.hour_interval_id == check.hour_interval_id
    &&& closed.task_id == check.task_id
    &&& closed.started_at == check.started_at
    &&& closed.ended_at matches Some(end) && end.spec_millis() == check.started_at.spec_millis()
        + nominal_check_millis()
    &&& closed.status == CheckStatus::NoResponse
    &&& closed.reason is None
}

/// The action for an open check. A work check follows `WorkSlotPollDecision`
/// (the question counts as asked once a reminder moment is recorded). A rest
/// check waits ten minutes, then reminds on the reminder schedule, counted
/// from its nominal end and from the last reminder.
pub open spec fn action_is(
    action: OpenCheckAction,
    check: TenMinCheckView,
    is_rest: bool,
    last_reminder_at: Option<UtcTimestamp>,
    now: UtcTimestamp,
    config: ReminderScheduleConfig,
) -> bool {
    let elapsed = now.spec_millis() - check.started_at.spec_millis();
    if !is_rest {
        match spec_work_slot_outcome(elapsed, last_reminder_at is Some) {
            WorkSlotPollOutcome::NoActionYet => action is Nothing,
            WorkSlotPollOutcome::AskAreYouWorking => action matches OpenCheckAction::AskAreYouWorking {
                message,
                asked_at,
            } && message@ == ask_message() && asked_at == now,
            WorkSlotPollOutcome::ResolveNoResponse => match action {
                OpenCheckAction::ResolveNoResponse { closed } => closed_as_silent(closed@, check),
                _ => false,
            },
        }
    } else if elapsed < nominal_check_millis() {
        action is Nothing
    } else {
        let wait_started = check.started_at.spec_millis() + nominal_check_millis();
        let reference = match last_reminder_at {
            Some(t) => t.spec_millis(),
            None => wait_started,
        };
        if spec_reminder_due(
            now.spec_millis() - reference,
            now.spec_millis() - wait_started,
            config.burst_window.spec_millis(),
            config.burst_interval.spec_millis(),
            config.steady_interval.spec_millis(),
        ) {
            action matches OpenCheckAction::RemindRestOverrun { message, reminded_at } && message@
                == rest_overrun_message() && reminded_at == now
        } else {
            action is Nothing
        }
    }
}

/// For an open rest check whose wait (from its nominal end) started, a
/// reminder is due exactly when enough time has passed since the last
/// reminder (or, before any, since the wait started): the burst interval
/// while the wait is younger than the burst window, the steady interval
/// from then on. Otherwise the tick does nothing.
pub proof fn lemma_rest_reminder_schedule(
    action: OpenCheckAction,
    check: TenMinCheckView,
    last_reminder_at: Option<UtcTimestamp>,
    now: UtcTimestamp,
    config: ReminderScheduleConfig,
)
    requires
        action_is(action, check, true, last_reminder_at, now, config),
        now.spec_millis() >= check.started_at.spec_millis() + nominal_check_millis(),
    ensures
        ({
            let wait_started = check.started_at.spec_millis() + nominal_check_millis();
            let since_last = now.spec_millis() - match last_reminder_at {
                Some(t) => t.spec_millis(),
                None => wait_started,
            };
            &&& now.spec_millis() - wait_started >= config.burst_window.spec_millis() ==> (
            action is RemindRestOverrun <==> since_last >= config.steady_interval.spec_millis())
            &&& now.spec_millis() - wait_started < config.burst_window.spec_millis() ==> (
            action is RemindRestOverrun <==> since_last >= config.burst_interval.spec_millis())
            &&& action is RemindRestOverrun || action is Nothing
        }),
{
}

/// Called on every tick of the polling loop: moves each open check along by
/// the pure decisions. A check that closes simply stops being open, which is
/// the only way a pending question or reminder is cancelled.
pub struct AdvanceOpenTenMinChecks {
    reminder_config: ReminderScheduleConfig,
}

impl AdvanceOpenTenMinChecks {
    pub fn new(reminder_config: ReminderScheduleConfig) -> (u: Self)
        ensures
            u.config() == reminder_config,
    {
        AdvanceOpenTenMinChecks { reminder_config }
    }

    pub closed spec fn config(self) -> ReminderScheduleConfig {
        self.reminder_config
    }

    /// The action for one open check, from the moment of its last question
    /// or reminder, all checks of its interval, and the current time.
    pub fn execute(
        &self,
        check: &TenMinCheck,
        last_reminder_at: Option<UtcTimestamp>,
        siblings: &Vec<TenMinCheck>,
        now: UtcTimestamp,
    ) -> (action: OpenCheckAction)
        requires
            check@.started_at.spec_millis() + nominal_check_millis() <= MAX_TIMESTAMP_MILLIS,
        ensures
            action_is(
                action,
                check@,
                spec_is_rest_check(check@.id, siblings@),
                last_reminder_at,
                now,
                self.config(),
            ),
    {
        let is_rest = is_rest_check(check.id(), siblings);
        let started_at = check.started_at();
        let elapsed_since_start = now.duration_since(&started_at);
        let nominal = Duration::minutes(TEN_MIN_NOMINAL_MINUTES);
        let nominal_end = UtcTimestamp::new(started_at.value() + nominal.num_milliseconds());
        if !is_rest {
            match WorkSlotPollDecision::decide(elapsed_since_start, last_reminder_at.is_some()) {
                WorkSlotPollOutcome::NoActionYet => OpenCheckAction::Nothing,
                WorkSlotPollOutcome::AskAreYouWorking => OpenCheckAction::AskAreYouWorking {
                    message: owned("Ты работаешь?"),
                    asked_at: now,
                },
                WorkSlotPollOutcome::ResolveNoResponse => {
                    OpenCheckAction::ResolveNoResponse {
                        closed: TenMinCheck::new(
                            check.id(),
                            check.hour_interval_id(),
                            check.task_id(),
                            check.started_at(),
                            Some(nominal_end),
                            CheckStatus::NoResponse,
                            None,
                        ),
                    }
                },
            }
        } else {
            if elapsed_since_start.is_less_than(&nominal) {
                return OpenCheckAction::Nothing;
            }
            let wait_started = nominal_end;
            let elapsed_since_wait_started = now.duration_since(&wait_started);
            let reference = match last_reminder_at {
                Some(t) => t,
                None => wait_started,
            };
            let elapsed_since_last_reminder = now.duration_since(&reference);
            if ReminderScheduleDecision::decide(
                elapsed_since_last_reminder,
                elapsed_since_wait_started,
                self.reminder_config.burst_window,
                self.reminder_config.burst_interval,
                self.reminder_config.steady_interval,
            ) {
                OpenCheckAction::RemindRestOverrun {
                    message: owned("Перерыв затянулся, ты вернулся?"),
                    reminded_at: now,
                }
            } else {
                OpenCheckAction::Nothing
            }
        }
    }
}

} // verus!
