//! Pure decisions of the polling loop: when to ask "are you working?", when
//! to remind, when to prompt an idle user, when to suggest lunch.
use vstd::prelude::*;

use crate::value_objects::Duration;

verus! {

/// Minutes after the start of an open work check before the bot first asks
/// "are you working?".
pub const WORK_SLOT_ASK_THRESHOLD_MINUTES: i64 = 10;

/// Number of closed hour intervals after which the bot suggests lunch.
pub const LUNCH_SUGGESTION_AFTER_INTERVALS: u8 = 4;

/// Outcome of polling an open work check on one tick.
#[derive(Debug, Clone, Copy, PartialEq, Eq, Structural)]
pub enum WorkSlotPollOutcome {
    /// Too early: nothing to do.
    NoActionYet,
    /// Time to ask "are you working?" (not asked yet).
    AskAreYouWorking,
    /// Already asked and still no answer: close the check as `NoResponse` now.
    ResolveNoResponse,
}

/// The outcome of polling an open work check.
pub open spec fn spec_work_slot_outcome(elapsed_millis: int, already_prompted: bool) -> WorkSlotPollOutcome {
    if already_prompted {
        WorkSlotPollOutcome::ResolveNoResponse
    } else if elapsed_millis >= WORK_SLOT_ASK_THRESHOLD_MINUTES * 60_000 {
        WorkSlotPollOutcome::AskAreYouWorking
    } else {
        WorkSlotPollOutcome::NoActionYet
    }
}

/// Polling of an open work check. Silence closes the slot at once on the
/// tick after the question; there is no waiting window and no second slot.
pub struct WorkSlotPollDecision;

impl WorkSlotPollDecision {
    pub fn decide(elapsed_since_start: Duration, already_prompted: bool) -> (o: WorkSlotPollOutcome)
        ensures
            o == spec_work_slot_outcome(elapsed_since_start.spec_millis(), already_prompted),
    {
        if already_prompted {
            return WorkSlotPollOutcome::ResolveNoResponse;
        }
        if elapsed_since_start.is_at_least(&Duration::minutes(WORK_SLOT_ASK_THRESHOLD_MINUTES)) {
            return WorkSlotPollOutcome::AskAreYouWorking;
        }
        WorkSlotPollOutcome::NoActionYet
    }
}

/// Whether a reminder is due: within the burst window reminders follow the
/// burst interval, afterwards the steady interval.
pub open spec fn spec_reminder_due(
    since_last_reminder: int,
    since_wait_started: int,
    burst_window: int,
    burst_interval: int,
    steady_interval: int,
) -> bool {
    let required = if since_wait_started < burst_window {
        burst_interval
    } else {
        steady_interval
    };
    since_last_reminder >= required
}

/// Reminder schedule shared by an overlong rest check and a failed check
/// waiting for the user to resume; the thresholds come from configuration.
pub struct ReminderScheduleDecision;

impl ReminderScheduleDecision {
    pub fn decide(
        elapsed_since_last_reminder: Duration,
        elapsed_since_wait_started: Duration,
        burst_window: Duration,
        burst_interval: Duration,
        steady_interval: Duration,
    ) -> (b: bool)
        ensures
            b == spec_reminder_due(
                elapsed_since_last_reminder.spec_millis(),
                elapsed_since_wait_started.spec_millis(),
                burst_window.spec_millis(),
                burst_interval.spec_millis(),
                steady_interval.spec_millis(),
            ),
    {
        let required_interval = if elapsed_since_wait_started.is_less_than(&burst_window) {
            burst_interval
        } else {
            steady_interval
        };
        elapsed_since_last_reminder.is_at_least(&required_interval)
    }
}

/// Whether to ask an idle user again "ready to continue?".
pub struct IdlePromptDecision;

impl IdlePromptDecision {
    pub fn decide(elapsed_since_last_prompt: Duration, idle_threshold: Duration) -> (b: bool)
        ensures
            b == (elapsed_since_last_prompt.spec_millis() >= idle_threshold.spec_millis()),
    {
        elapsed_since_last_prompt.is_at_least(&idle_threshold)
    }
}

/// The lunch suggestion fires exactly on the fourth closed interval, never
/// before and never again later in the day.
pub struct LunchSuggestionDecision;

impl LunchSuggestionDecision {
    pub fn decide(closed_intervals: u8) -> (b: bool)
        ensures
            b == (closed_intervals == LUNCH_SUGGESTION_AFTER_INTERVALS),
    {
        closed_intervals == LUNCH_SUGGESTION_AFTER_INTERVALS
    }
}

/// Once the question has been asked, the next tick always resolves the check
/// as silent, whatever the elapsed time.
pub proof fn lemma_prompted_slot_resolves(elapsed_millis: int)
    ensures
        spec_work_slot_outcome(elapsed_millis, true) == WorkSlotPollOutcome::ResolveNoResponse,
{
}

/// Before the question, the outcome only moves forward with time: if the
/// bot asks at some elapsed time it also asks at any later one.
pub proof fn lemma_ask_is_monotone(earlier: int, later: int)
    requires
        earlier <= later,
        spec_work_slot_outcome(earlier, false) == WorkSlotPollOutcome::AskAreYouWorking,
    ensures
        spec_work_slot_outcome(later, false) == WorkSlotPollOutcome::AskAreYouWorking,
{
}

/// A reminder that is due stays due as more time passes since the last one.
pub proof fn lemma_reminder_due_is_monotone(
    earlier: int,
    later: int,
    since_wait_started: int,
    burst_window: int,
    burst_interval: int,
    steady_interval: int,
)
    requires
        earlier <= later,
        spec_reminder_due(earlier, since_wait_started, burst_window, burst_interval, steady_interval),
    ensures
        spec_reminder_due(later, since_wait_started, burst_window, burst_interval, steady_interval),
{
}

} // verus!
