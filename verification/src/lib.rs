//! workbeat: the domain rules of a focus-interval tracker (work days made of
//! hour intervals, each made of ten-minute checks) and the decisions of its
//! use cases, stated as contracts over plain values.

pub mod error;
pub mod ids;

pub use error::DomainError;
pub use ids::{HourIntervalId, TaskId, TenMinCheckId, WorkDayId};
pub mod value_objects;
pub use value_objects::{Duration, TelegramId, TimeZoneOffset, UtcTimestamp};
pub mod calendar;
pub use calendar::{period_bounds, CalendarDate, Period};
pub mod text;
pub mod user;
pub mod work_day;
pub use user::User;
pub use work_day::WorkDay;
pub mod ten_min_check;
pub mod hour_interval;
pub use ten_min_check::{CheckStatus, TenMinCheck};
pub use hour_interval::{HourInterval, SuccessfulCount};
pub mod task;
pub use task::{Task, TaskPriority, TaskStatus};
pub mod ten_min_check_state;
pub mod hour_interval_state;
pub use ten_min_check_state::{append_reason_to_no_response, TenMinCheckAnswer, TenMinCheckState};
pub use hour_interval_state::HourIntervalState;
pub mod decisions;
pub use decisions::{
    IdlePromptDecision, LunchSuggestionDecision, ReminderScheduleDecision, WorkSlotPollDecision,
    WorkSlotPollOutcome, LUNCH_SUGGESTION_AFTER_INTERVALS, WORK_SLOT_ASK_THRESHOLD_MINUTES,
};
pub mod time_calculations;
pub use time_calculations::{
    daily_norm_progress, day_overrun, interval_overrun, task_time, DailyNormProgress,
    NOMINAL_INTERVAL_MINUTES, NOMINAL_WORK_DAY_INTERVALS, TEN_MIN_NOMINAL_MINUTES,
};
pub mod ordering;
pub mod use_cases;
pub mod settings;
pub use settings::{Config, ConfigError, ConfigVars, SystemClock};
