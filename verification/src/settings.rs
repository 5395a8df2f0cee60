//! The settings of the service, read from the values of its environment
//! variables, and the clock it runs on.
use vstd::prelude::*;

use crate::text::{is_blank, is_blank_text, is_unicode_white_space, is_white_space};
use crate::use_cases::config::{
    IdlePromptConfig, ReminderScheduleConfig, DEFAULT_BURST_INTERVAL_MINUTES,
    DEFAULT_BURST_WINDOW_MINUTES, DEFAULT_IDLE_THRESHOLD_HOURS, DEFAULT_STEADY_INTERVAL_MINUTES,
};
use crate::value_objects::{
    Duration, UtcTimestamp, MAX_DURATION_HOURS, MAX_DURATION_MINUTES, MAX_TIMESTAMP_MILLIS,
};

verus! {

broadcast use vstd::seq_lib::group_seq_properties;

/// Default polling interval, in seconds.
pub const DEFAULT_POLL_INTERVAL_SECS: u64 = 60;

/// The raw values of the environment variables (`None` when a variable is
/// not set).
#[derive(Debug, Clone, PartialEq, Eq)]
pub struct ConfigVars {
    pub database_url: Option<String>,
    pub telegram_token: Option<String>,
    pub poll_interval_secs: Option<String>,
    pub idle_prompt_threshold_hours: Option<String>,
    pub reminder_burst_window_minutes: Option<String>,
    pub reminder_burst_interval_minutes: Option<String>,
    pub reminder_steady_interval_minutes: Option<String>,
}

/// The settings: where the database is, the bot token, how often the loop
/// polls, and the thresholds of the idle prompt and of the reminders.
#[derive(Debug, Clone, PartialEq, Eq)]
pub struct Config {
    pub database_url: String,
    pub telegram_token: String,
    pub poll_interval_secs: u64,
    pub idle_prompt: IdlePromptConfig,
    pub reminder_schedule: ReminderScheduleConfig,
}

/// A setting that is missing or not a positive integer.
#[derive(Debug, Clone, PartialEq, Eq)]
pub enum ConfigError {
    Missing(&'static str),
    InvalidPositiveInt { name: &'static str, value: String },
}

/// The text without the Unicode white space at either end (`str::trim`).
pub open spec fn trimmed(s: Seq<char>) -> Seq<char>
    decreases s.len(),
{
    if s.len() > 0 && is_unicode_white_space(s[0]) {
        trimmed(s.drop_first())
    } else if s.len() > 0 && is_unicode_white_space(s.last()) {
        trimmed(s.drop_last())
    } else {
        s
    }
}

pub open spec fn is_ascii_digit(c: char) -> bool {
    '0' <= c <= '9'
}

/// Value of a run of decimal digits.
pub open spec fn digits_value(s: Seq<char>) -> int
    decreases s.len(),
{
    if s.len() == 0 {
        0
    } else {
        digits_value(s.drop_last()) * 10 + (s.last() as int - '0' as int)
    }
}

/// A positive integer of at most `max`, written as decimal digits with an
/// optional leading `+` (what `str::parse` accepts for an integer that is
/// then required to be positive).
pub open spec fn positive_value(s: Seq<char>, max: int) -> Option<int> {
    let digits = unsigned_part(s);
    if digits.len() > 0 && all_digits(digits) && 1 <= digits_value(digits) <= max {
        Some(digits_value(digits))
    } else {
        None
    }
}

/// The text after an optional leading `+`.
pub open spec fn unsigned_part(s: Seq<char>) -> Seq<char> {
    if s.len() > 0 && s[0] == '+' {
        s.drop_first()
    } else {
        s
    }
}

pub open spec fn all_digits(s: Seq<char>) -> bool {
    forall|i: int| 0 <= i < s.len() ==> is_ascii_digit(#[trigger] s[i])
}

/// A required variable is set and not blank.
pub open spec fn required_ok(v: Option<String>) -> bool {
    v matches Some(s) && !is_blank_text(s@)
}

/// An optional positive variable is unset, or holds a positive integer of
/// at most `max` once trimmed.
pub open spec fn setting_ok(v: Option<String>, max: int) -> bool {
    v matches Some(s) ==> positive_value(trimmed(s@), max) is Some
}

/// The value of an optional positive variable, `default` when unset.
pub open spec fn setting_value(v: Option<String>, default: int, max: int) -> int {
    match v {
        Some(s) => positive_value(trimmed(s@), max)->0,
        None => default,
    }
}

/// `r` is the error for the variable `name` holding `v`.
pub open spec fn is_invalid(r: Result<Config, ConfigError>, name: Seq<char>, v: Option<String>) -> bool {
    r matches Err(ConfigError::InvalidPositiveInt { name: n, value }) && n@ == name && v == Some(value)
}

/// The value of `s` without white space at either end.
fn trim_text(s: &str) -> (t: Vec<char>)
    ensures
        t@ == trimmed(s@),
{
    let len = s.unicode_len();
    let mut lo: usize = 0;
    proof {
        assert(s@.subrange(0, len as int) =~= s@);
    }
    while lo < len && is_white_space(s.get_char(lo))
        invariant
            len == s@.len(),
            lo <= len,
            trimmed(s@) == trimmed(s@.subrange(lo as int, len as int)),
        decreases len - lo,
    {
        proof {
            let rest = s@.subrange(lo as int, len as int);
            assert(rest.drop_first() =~= s@.subrange(lo as int + 1, len as int));
        }
        lo = lo + 1;
    }
    let mut hi: usize = len;
    while hi > lo && is_white_space(s.get_char(hi - 1))
        invariant
            len == s@.len(),
            lo <= hi <= len,
            trimmed(s@) == trimmed(s@.subrange(lo as int, hi as int)),
            lo < len ==> !is_unicode_white_space(s@[lo as int]),
        decreases hi - lo,
    {
        proof {
            let rest = s@.subrange(lo as int, hi as int);
            assert(rest.drop_last() =~= s@.subrange(lo as int, hi as int - 1));
            assert(rest[0] == s@[lo as int]);
        }
        hi = hi - 1;
    }
    proof {
        let rest = s@.subrange(lo as int, hi as int);
        if rest.len() > 0 {
            assert(rest[0] == s@[lo as int]);
            assert(rest.last() == s@[hi as int - 1]);
        }
    }
    let mut t: Vec<char> = Vec::new();
    let mut i: usize = lo;
    while i < hi
        invariant
            len == s@.len(),
            lo <= i <= hi <= len,
            t@ =~= s@.subrange(lo as int, i as int),
        decreases hi - i,
    {
        t.push(s.get_char(i));
        i = i + 1;
    }
    t
}

/// The positive integer of at most `max` that `text` holds once trimmed.
fn parse_positive(text: &str, max: u64) -> (r: Option<u64>)
    requires
        max >= 9,
    ensures
        r matches Some(v) ==> positive_value(trimmed(text@), max as int) == Some(v as int),
        r is None ==> positive_value(trimmed(text@), max as int) is None,
{
    let t = trim_text(text);
    let start: usize = if t.len() > 0 && t[0] == '+' {
        1
    } else {
        0
    };
    let ghost digits = t@.subrange(start as int, t@.len() as int);
    proof {
        if t@.len() > 0 && t@[0] == '+' {
            assert(digits =~= t@.drop_first());
        } else {
            assert(digits =~= t@);
        }
    }
    if start >= t.len() {
        proof {
            assert(digits.len() == 0);
        }
        return None;
    }
    let mut value: u64 = 0;
    let mut over = false;
    let mut i: usize = start;
    while i < t.len()
        invariant
            start <= i <= t@.len(),
            max >= 9,
            t@ == trimmed(text@),
            start == 1 <==> (t@.len() > 0 && t@[0] == '+'),
            start == 0 || start == 1,
            digits == t@.subrange(start as int, t@.len() as int),
            digits == unsigned_part(t@),
            forall|j: int| start <= j < i ==> is_ascii_digit(#[trigger] t@[j]),
            !over ==> value == digits_value(t@.subrange(start as int, i as int)) && value <= max,
            over ==> digits_value(t@.subrange(start as int, i as int)) > max,
        decreases t@.len() - i,
    {
        let c = t[i];
        if !('0' <= c && c <= '9') {
            proof {
                assert(digits[i - start] == c);
                assert(!is_ascii_digit(digits[i - start]));
                assert(!all_digits(digits));
                assert(trimmed(text@) == t@);
            }
            return None;
        }
        let d = (c as u32 - '0' as u32) as u64;
        proof {
            let p = t@.subrange(start as int, i as int + 1);
            assert(p.drop_last() =~= t@.subrange(start as int, i as int));
            assert(p.last() == c);
        }
        if !over {
            if value > (max - d) / 10 {
                over = true;
                proof {
                    assert(value * 10 + d > max) by (nonlinear_arith)
                        requires
                            value > (max - d) / 10,
                            d <= max || d > max,
                            d <= 9,
                    ;
                }
            } else {
                proof {
                    assert(value * 10 + d <= max) by (nonlinear_arith)
                        requires
                            value <= (max - d) / 10,
                            d <= 9,
                    ;
                }
                value = value * 10 + d;
            }
        } else {
            proof {
                let prev = t@.subrange(start as int, i as int);
                assert(digits_value(prev) * 10 + d >= digits_value(prev)) by (nonlinear_arith)
                    requires
                        digits_value(prev) >= 0,
                        d >= 0,
                ;
            }
        }
        i = i + 1;
    }
    proof {
        assert(t@.subrange(start as int, i as int) =~= digits);
        assert forall|j: int| 0 <= j < digits.len() implies is_ascii_digit(#[trigger] digits[j]) by {
            assert(digits[j] == t@[start + j]);
        }
    }
    if over || value == 0 {
        None
    } else {
        Some(value)
    }
}

/// The value of an optional positive variable, or the error for it.
fn positive_setting(name: &'static str, v: Option<String>, default: u64, max: u64) -> (r: Result<u64, ConfigError>)
    requires
        max >= 9,
    ensures
        setting_ok(v, max as int) ==> r == Ok::<u64, ConfigError>(setting_value(v, default as int, max as int) as u64),
        !setting_ok(v, max as int) ==> (r matches Err(ConfigError::InvalidPositiveInt { name: n, value })
            && n@ == name@ && v == Some(value)),
{
    match v {
        None => Ok(default),
        Some(value) => match parse_positive(value.as_str(), max) {
            Some(n) => Ok(n),
            None => Err(ConfigError::InvalidPositiveInt { name, value }),
        },
    }
}

/// A required variable, or the error for it.
fn required_setting(name: &'static str, v: Option<String>) -> (r: Result<String, ConfigError>)
    ensures
        required_ok(v) ==> r == Ok::<String, ConfigError>(v->0),
        !required_ok(v) ==> (r matches Err(ConfigError::Missing(n)) && n@ == name@),
{
    match v {
        Some(value) => {
            if is_blank(value.as_str()) {
                Err(ConfigError::Missing(name))
            } else {
                Ok(value)
            }
        },
        None => Err(ConfigError::Missing(name)),
    }
}

/// An optional variable, when it holds a valid value, holds at most `limit`.
pub open spec fn setting_within(v: Option<String>, default: int, limit: int) -> bool {
    setting_ok(v, i64::MAX as int) ==> setting_value(v, default, i64::MAX as int) <= limit
}

/// Whether an optional positive variable stays within `limit`.
fn within(v: &Option<String>, limit: u64) -> (b: bool)
    requires
        limit >= 9,
    ensures
        v is None ==> b,
        v is Some ==> b == setting_within(*v, 0, limit as int),
{
    match v {
        None => true,
        Some(text) => match parse_positive(text.as_str(), i64::MAX as u64) {
            Some(n) => n <= limit,
            None => true,
        },
    }
}

/// A required variable is set and not blank.
fn required_present(v: &Option<String>) -> (b: bool)
    ensures
        b == required_ok(*v),
{
    match v {
        Some(text) => !is_blank(text.as_str()),
        None => false,
    }
}

/// An optional positive variable is unset or valid.
fn positive_or_unset(v: &Option<String>, max: u64) -> (b: bool)
    requires
        max >= 9,
    ensures
        b == setting_ok(*v, max as int),
{
    match v {
        Some(text) => parse_positive(text.as_str(), max).is_some(),
        None => true,
    }
}

/// `r` is what `Config::from_vars` gives for `vars`.
pub open spec fn is_config_outcome(vars: ConfigVars, r: Result<Config, ConfigError>) -> bool {
    let poll_ok = setting_ok(vars.poll_interval_secs, u64::MAX as int);
    let idle_ok = setting_ok(vars.idle_prompt_threshold_hours, i64::MAX as int);
    let window_ok = setting_ok(vars.reminder_burst_window_minutes, i64::MAX as int);
    let interval_ok = setting_ok(vars.reminder_burst_interval_minutes, i64::MAX as int);
    let steady_ok = setting_ok(vars.reminder_steady_interval_minutes, i64::MAX as int);
    if !required_ok(vars.database_url) {
        r matches Err(ConfigError::Missing(n)) && n@ == "DATABASE_URL"@
    } else if !required_ok(vars.telegram_token) {
        r matches Err(ConfigError::Missing(n)) && n@ == "TELEGRAM_BOT_TOKEN"@
    } else if !poll_ok {
        is_invalid(r, "POLL_INTERVAL_SECS"@, vars.poll_interval_secs)
    } else if !idle_ok {
        is_invalid(r, "IDLE_PROMPT_THRESHOLD_HOURS"@, vars.idle_prompt_threshold_hours)
    } else if !window_ok {
        is_invalid(r, "REMINDER_BURST_WINDOW_MINUTES"@, vars.reminder_burst_window_minutes)
    } else if !interval_ok {
        is_invalid(r, "REMINDER_BURST_INTERVAL_MINUTES"@, vars.reminder_burst_interval_minutes)
    } else if !steady_ok {
        is_invalid(r, "REMINDER_STEADY_INTERVAL_MINUTES"@, vars.reminder_steady_interval_minutes)
    } else {
        r matches Ok(c) && {
            &&& c.database_url == vars.database_url->0
            &&& c.telegram_token == vars.telegram_token->0
            &&& c.poll_interval_secs == setting_value(
                vars.poll_interval_secs,
                DEFAULT_POLL_INTERVAL_SECS as int,
                u64::MAX as int,
            )
            &&& c.idle_prompt.idle_threshold.spec_millis() == setting_value(
                vars.idle_prompt_threshold_hours,
                DEFAULT_IDLE_THRESHOLD_HOURS as int,
                i64::MAX as int,
            ) * 3_600_000
            &&& c.reminder_schedule.burst_window.spec_millis() == setting_value(
                vars.reminder_burst_window_minutes,
                DEFAULT_BURST_WINDOW_MINUTES as int,
                i64::MAX as int,
            ) * 60_000
            &&& c.reminder_schedule.burst_interval.spec_millis() == setting_value(
                vars.reminder_burst_interval_minutes,
                DEFAULT_BURST_INTERVAL_MINUTES as int,
                i64::MAX as int,
            ) * 60_000
            &&& c.reminder_schedule.steady_interval.spec_millis() == setting_value(
                vars.reminder_steady_interval_minutes,
                DEFAULT_STEADY_INTERVAL_MINUTES as int,
                i64::MAX as int,
            ) * 60_000
        }
    }
}

/// Every variable is valid: the required ones set and not blank, the
/// optional ones unset or positive integers.
pub open spec fn config_valid(vars: ConfigVars) -> bool {
    &&& required_ok(vars.database_url)
    &&& required_ok(vars.telegram_token)
    &&& setting_ok(vars.poll_interval_secs, u64::MAX as int)
    &&& setting_ok(vars.idle_prompt_threshold_hours, i64::MAX as int)
    &&& setting_ok(vars.reminder_burst_window_minutes, i64::MAX as int)
    &&& setting_ok(vars.reminder_burst_interval_minutes, i64::MAX as int)
    &&& setting_ok(vars.reminder_steady_interval_minutes, i64::MAX as int)
}

/// The durations built from the variables fit a span.
pub open spec fn durations_within(vars: ConfigVars) -> bool {
    &&& setting_within(vars.idle_prompt_threshold_hours, DEFAULT_IDLE_THRESHOLD_HOURS as int, MAX_DURATION_HOURS as int)
    &&& setting_within(vars.reminder_burst_window_minutes, DEFAULT_BURST_WINDOW_MINUTES as int, MAX_DURATION_MINUTES as int)
    &&& setting_within(vars.reminder_burst_interval_minutes, DEFAULT_BURST_INTERVAL_MINUTES as int, MAX_DURATION_MINUTES as int)
    &&& setting_within(vars.reminder_steady_interval_minutes, DEFAULT_STEADY_INTERVAL_MINUTES as int, MAX_DURATION_MINUTES as int)
}

impl Config {
    /// Whether the durations that `from_vars` builds fit a span: the idle
    /// threshold in hours and the reminder settings in minutes.
    pub fn durations_fit(vars: &ConfigVars) -> (b: bool)
        ensures
            b == durations_within(*vars),
    {
        within(&vars.idle_prompt_threshold_hours, MAX_DURATION_HOURS as u64)
            && within(&vars.reminder_burst_window_minutes, MAX_DURATION_MINUTES as u64)
            && within(&vars.reminder_burst_interval_minutes, MAX_DURATION_MINUTES as u64)
            && within(&vars.reminder_steady_interval_minutes, MAX_DURATION_MINUTES as u64)
    }

    /// The settings from the values of their variables: `DATABASE_URL` and
    /// `TELEGRAM_BOT_TOKEN` must be set and not blank; `POLL_INTERVAL_SECS`
    /// (default 60), `IDLE_PROMPT_THRESHOLD_HOURS` (2),
    /// `REMINDER_BURST_WINDOW_MINUTES` (5), `REMINDER_BURST_INTERVAL_MINUTES`
    /// (1) and `REMINDER_STEADY_INTERVAL_MINUTES` (5) must, when set, hold a
    /// positive integer (white space around it is ignored). The first
    /// variable at fault, in that order, gives the error.
    pub fn from_vars(vars: ConfigVars) -> (r: Result<Config, ConfigError>)
        requires
            config_valid(vars) ==> durations_within(vars),
        ensures
            is_config_outcome(vars, r),
    {
        let max_i64 = i64::MAX as u64;
        let database_url = match required_setting("DATABASE_URL", vars.database_url) {
            Ok(v) => v,
            Err(e) => {
                return Err(e);
            },
        };
        let telegram_token = match required_setting("TELEGRAM_BOT_TOKEN", vars.telegram_token) {
            Ok(v) => v,
            Err(e) => {
                return Err(e);
            },
        };
        let poll = match positive_setting("POLL_INTERVAL_SECS", vars.poll_interval_secs, DEFAULT_POLL_INTERVAL_SECS, u64::MAX) {
            Ok(v) => v,
            Err(e) => {
                return Err(e);
            },
        };
        let idle = match positive_setting(
            "IDLE_PROMPT_THRESHOLD_HOURS",
            vars.idle_prompt_threshold_hours,
            DEFAULT_IDLE_THRESHOLD_HOURS as u64,
            max_i64,
        ) {
            Ok(v) => v,
            Err(e) => {
                return Err(e);
            },
        };
        let window = match positive_setting(
            "REMINDER_BURST_WINDOW_MINUTES",
            vars.reminder_burst_window_minutes,
            DEFAULT_BURST_WINDOW_MINUTES as u64,
            max_i64,
        ) {
            Ok(v) => v,
            Err(e) => {
                return Err(e);
            },
        };
        let interval = match positive_setting(
            "REMINDER_BURST_INTERVAL_MINUTES",
            vars.reminder_burst_interval_minutes,
            DEFAULT_BURST_INTERVAL_MINUTES as u64,
            max_i64,
        ) {
            Ok(v) => v,
            Err(e) => {
                return Err(e);
            },
        };
        let steady = match positive_setting(
            "REMINDER_STEADY_INTERVAL_MINUTES",
            vars.reminder_steady_interval_minutes,
            DEFAULT_STEADY_INTERVAL_MINUTES as u64,
            max_i64,
        ) {
            Ok(v) => v,
            Err(e) => {
                return Err(e);
            },
        };
        Ok(
            Config {
                database_url,
                telegram_token,
                poll_interval_secs: poll,
                idle_prompt: IdlePromptConfig { idle_threshold: Duration::hours(idle as i64) },
                reminder_schedule: ReminderScheduleConfig {
                    burst_window: Duration::minutes(window as i64),
                    burst_interval: Duration::minutes(interval as i64),
                    steady_interval: Duration::minutes(steady as i64),
                },
            },
        )
    }

    /// Whether every variable is valid (see `from_vars`).
    pub fn is_valid(vars: &ConfigVars) -> (b: bool)
        ensures
            b == config_valid(*vars),
    {
        let max_i64 = i64::MAX as u64;
        required_present(&vars.database_url) && required_present(&vars.telegram_token)
            && positive_or_unset(&vars.poll_interval_secs, u64::MAX)
            && positive_or_unset(&vars.idle_prompt_threshold_hours, max_i64)
            && positive_or_unset(&vars.reminder_burst_window_minutes, max_i64)
            && positive_or_unset(&vars.reminder_burst_interval_minutes, max_i64)
            && positive_or_unset(&vars.reminder_steady_interval_minutes, max_i64)
    }

    /// The settings as `from_vars` gives them, or `None` where every variable
    /// is valid but a duration built from them does not fit a span.
    pub fn try_from_vars(vars: ConfigVars) -> (r: Option<Result<Config, ConfigError>>)
        ensures
            r is None <==> (config_valid(vars) && !durations_within(vars)),
            r matches Some(res) ==> is_config_outcome(vars, res),
    {
        if Config::durations_fit(&vars) || !Config::is_valid(&vars) {
            Some(Config::from_vars(vars))
        } else {
            None
        }
    }
}

/// The instant type of the standard library's system clock.
#[verifier::external_type_specification]
#[verifier::external_body]
pub struct ExSystemTime(std::time::SystemTime);

/// Calls `std::time::SystemTime::now`. Nothing is claimed of the instant: it
/// is whatever the system clock reads, and two calls may differ.
#[verifier::external_body]
fn system_time_now() -> std::time::SystemTime {
    std::time::SystemTime::now()
}

/// Calls `SystemTime::duration_since` with `UNIX_EPOCH` and keeps the
/// duration on success (`None` where the instant lies before the epoch).
/// Nothing is claimed of the duration: the instant is opaque here.
#[verifier::external_body]
fn elapsed_since_epoch(t: &std::time::SystemTime) -> Option<core::time::Duration> {
    match t.duration_since(std::time::UNIX_EPOCH) {
        Ok(d) => Some(d),
        Err(_) => None,
    }
}

/// Calls `Duration::as_millis`: the whole milliseconds of the span. Nothing
/// is claimed of the number: the span is opaque here.
#[verifier::external_body]
fn whole_millis(d: &core::time::Duration) -> u128 {
    d.as_millis()
}

/// The instant `millis` milliseconds after 1970-01-01T00:00:00Z, or `None`
/// past the last instant a timestamp holds.
pub fn timestamp_of_millis(millis: u128) -> (t: Option<UtcTimestamp>)
    ensures
        millis <= MAX_TIMESTAMP_MILLIS ==> (t matches Some(ts) && ts.spec_millis() == millis),
        millis > MAX_TIMESTAMP_MILLIS ==> t is None,
{
    if millis <= MAX_TIMESTAMP_MILLIS as u128 {
        Some(UtcTimestamp::new(millis as i64))
    } else {
        None
    }
}

/// The system clock.
pub struct SystemClock;

impl SystemClock {
    /// The current instant, to the millisecond; each call may give another.
    /// The clock's reading is turned into a timestamp by
    /// `timestamp_of_millis`; `None` where the system clock reads an instant
    /// before 1970-01-01T00:00:00Z or past the last instant a timestamp holds.
    pub fn now(&self) -> (t: Option<UtcTimestamp>)
        ensures
            t matches Some(ts) ==> 0 <= ts.spec_millis() <= MAX_TIMESTAMP_MILLIS,
    {
        let instant = system_time_now();
        match elapsed_since_epoch(&instant) {
            Some(elapsed) => timestamp_of_millis(whole_millis(&elapsed)),
            None => None,
        }
    }
}

} // verus!
