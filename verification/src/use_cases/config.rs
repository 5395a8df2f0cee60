//! Thresholds of the polling loop, read from configuration.
use vstd::prelude::*;

use crate::value_objects::Duration;

verus! {

/// Default idle threshold before "ready to continue?", in hours.
pub const DEFAULT_IDLE_THRESHOLD_HOURS: i64 = 2;

/// Default burst window of the reminder schedule, in minutes.
pub const DEFAULT_BURST_WINDOW_MINUTES: i64 = 5;

/// Default reminder interval inside the burst window, in minutes.
pub const DEFAULT_BURST_INTERVAL_MINUTES: i64 = 1;

/// Default reminder interval after the burst window, in minutes.
pub const DEFAULT_STEADY_INTERVAL_MINUTES: i64 = 5;

/// How long a day may stay idle between intervals before the user is asked
/// again whether they are ready to continue.
#[derive(Debug, Clone, Copy, PartialEq, Eq, Structural)]
pub struct IdlePromptConfig {
    pub idle_threshold: Duration,
}

impl Default for IdlePromptConfig {
    fn default() -> (c: Self)
        ensures
            c.idle_threshold.spec_millis() == DEFAULT_IDLE_THRESHOLD_HOURS * 3_600_000,
    {
        IdlePromptConfig { idle_threshold: Duration::hours(DEFAULT_IDLE_THRESHOLD_HOURS) }
    }
}

/// Reminder schedule: within `burst_window` after the wait started remind
/// every `burst_interval`, afterwards every `steady_interval`.
#[derive(Debug, Clone, Copy, PartialEq, Eq, Structural)]
pub struct ReminderScheduleConfig {
    pub burst_window: Duration,
    pub burst_interval: Duration,
    pub steady_interval: Duration,
}

impl Default for ReminderScheduleConfig {
    fn default() -> (c: Self)
        ensures
            c.burst_window.spec_millis() == DEFAULT_BURST_WINDOW_MINUTES * 60_000,
            c.burst_interval.spec_millis() == DEFAULT_BURST_INTERVAL_MINUTES * 60_000,
            c.steady_interval.spec_millis() == DEFAULT_STEADY_INTERVAL_MINUTES * 60_000,
    {
        ReminderScheduleConfig {
            burst_window: Duration::minutes(DEFAULT_BURST_WINDOW_MINUTES),
            burst_interval: Duration::minutes(DEFAULT_BURST_INTERVAL_MINUTES),
            steady_interval: Duration::minutes(DEFAULT_STEADY_INTERVAL_MINUTES),
        }
    }
}

} // verus!
