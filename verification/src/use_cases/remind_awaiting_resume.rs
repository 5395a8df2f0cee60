//! Reminders while a failed check waits for the user to resume.
use vstd::prelude::*;

use crate::decisions::{spec_reminder_due, ReminderScheduleDecision};
use crate::hour_interval::{HourInterval, HourIntervalView};
use crate::ten_min_check::{CheckStatus, TenMinCheck, TenMinCheckView};
use crate::text::owned;
use crate::use_cases::config::ReminderScheduleConfig;
use crate::use_cases::errors::{NotifierError, RepoError};
use crate::value_objects::UtcTimestamp;

verus! {

/// Why a reminder tick failed.
#[derive(Debug, Clone, PartialEq, Eq)]
pub enum RemindAwaitingResumeError {
    Repo(RepoError),
    Notifier(NotifierError),
}

/// Text of the reminder once a reason was given.
pub open spec fn ready_message() -> Seq<char> {
    "Готов продолжить?"@
}

/// Text of the reminder while no reason was given.
pub open spec fn what_happened_message() -> Seq<char> {
    "Что случилось, почему не отвечаешь?"@
}

/// `check` waits for the user to resume: it closed as `Failed` or
/// `NoResponse`, its interval is still open, and no other check of the
/// interval started at or after it.
pub open spec fn spec_is_awaiting(check: TenMinCheckView, interval: HourIntervalView, siblings: Seq<TenMinCheck>) -> bool {
    &&& check.ended_at is Some
    &&& check.status != CheckStatus::Worked
    &&& interval.ended_at is None
    &&& forall|i: int|
        0 <= i < siblings.len() && (#[trigger] siblings[i])@.id != check.id
            ==> siblings[i]@.started_at.spec_millis() < check.started_at.spec_millis()
}

/// A check waits for the user to resume exactly when it closed as `Failed`
/// or as `NoResponse` (silent), its interval is still open, and every other
/// check of the interval started before it; a worked or open check never
/// waits.
pub proof fn lemma_awaiting_failed_or_silent(
    check: TenMinCheckView,
    interval: HourIntervalView,
    siblings: Seq<TenMinCheck>,
)
    ensures
        spec_is_awaiting(check, interval, siblings) <==> {
            &&& check.ended_at is Some
            &&& (check.status == CheckStatus::Failed || check.status == CheckStatus::NoResponse)
            &&& interval.ended_at is None
            &&& forall|i: int|
                0 <= i < siblings.len() && (#[trigger] siblings[i])@.id != check.id
                    ==> siblings[i]@.started_at.spec_millis() < check.started_at.spec_millis()
        },
        check.status == CheckStatus::Worked ==> !spec_is_awaiting(check, interval, siblings),
        check.ended_at is None ==> !spec_is_awaiting(check, interval, siblings),
{
}

/// Called on every tick for the closed failed checks that are the last of a
/// still open interval: reminds on the reminder schedule (counted from the
/// close of the check and from the last reminder) until the user confirms
/// "ready to continue".
pub struct RemindAwaitingResume {
    reminder_config: ReminderScheduleConfig,
}

impl RemindAwaitingResume {
    pub fn new(reminder_config: ReminderScheduleConfig) -> (u: Self)
        ensures
            u.config() == reminder_config,
    {
        RemindAwaitingResume { reminder_config }
    }

    pub closed spec fn config(self) -> ReminderScheduleConfig {
        self.reminder_config
    }

    /// Whether `check` (of `interval`, whose checks are `siblings`) waits
    /// for the user to resume.
    pub fn is_awaiting(&self, check: &TenMinCheck, interval: &HourInterval, siblings: &Vec<TenMinCheck>) -> (b: bool)
        ensures
            b == spec_is_awaiting(check@, interval@, siblings@),
    {
        if check.ended_at().is_none() || check.status() == CheckStatus::Worked || interval.ended_at().is_some() {
            return false;
        }
        let mut i: usize = 0;
        while i < siblings.len()
            invariant
                i <= siblings@.len(),
                forall|k: int|
                    0 <= k < i && (#[trigger] siblings@[k])@.id != check@.id
                        ==> siblings@[k]@.started_at.spec_millis() < check@.started_at.spec_millis(),
            decreases siblings@.len() - i,
        {
            if siblings[i].id() != check.id() && !siblings[i].started_at().is_before(&check.started_at()) {
                return false;
            }
            i = i + 1;
        }
        true
    }

    /// The reminder to send now for a closed check, if one is due; sending it
    /// makes `now` the moment of the last reminder. Asks for the reason while
    /// there is none, otherwise whether the user is ready to continue.
    pub fn execute(&self, check: &TenMinCheck, last_reminder_at: Option<UtcTimestamp>, now: UtcTimestamp) -> (r: Option<String>)
        requires
            check@.ended_at is Some,
        ensures
            ({
                let ended = check@.ended_at->0.spec_millis();
                let reference = match last_reminder_at {
                    Some(t) => t.spec_millis(),
                    None => ended,
                };
                let due = spec_reminder_due(
                    now.spec_millis() - reference,
                    now.spec_millis() - ended,
                    self.config().burst_window.spec_millis(),
                    self.config().burst_interval.spec_millis(),
                    self.config().steady_interval.spec_millis(),
                );
                &&& !due ==> r is None
                &&& due ==> (r matches Some(text) && text@ == if check@.reason is Some {
                    ready_message()
                } else {
                    what_happened_message()
                })
            }),
    {
        let ended_at = match check.ended_at() {
            Some(t) => t,
            None => {
                return None;
            },
        };
        let elapsed_since_wait_started = now.duration_since(&ended_at);
        let reference = match last_reminder_at {
            Some(t) => t,
            None => ended_at,
        };
        let elapsed_since_last_reminder = now.duration_since(&reference);
        let should_remind = ReminderScheduleDecision::decide(
            elapsed_since_last_reminder,
            elapsed_since_wait_started,
            self.reminder_config.burst_window,
            self.reminder_config.burst_interval,
            self.reminder_config.steady_interval,
        );
        if !should_remind {
            return None;
        }
        if check.reason().is_some() {
            Some(owned("Готов продолжить?"))
        } else {
            Some(owned("Что случилось, почему не отвечаешь?"))
        }
    }
}

} // verus!
