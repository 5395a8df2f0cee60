use workbeat::settings::{timestamp_of_millis, Config, ConfigError, ConfigVars, SystemClock};
use workbeat::use_cases::config::{IdlePromptConfig, ReminderScheduleConfig};
use workbeat::value_objects::Duration;

fn vars() -> ConfigVars {
    ConfigVars {
        database_url: Some("sqlite://./workbeat-test.db".to_string()),
        telegram_token: Some("test-token".to_string()),
        poll_interval_secs: None,
        idle_prompt_threshold_hours: None,
        reminder_burst_window_minutes: None,
        reminder_burst_interval_minutes: None,
        reminder_steady_interval_minutes: None,
    }
}

#[test]
fn missing_database_url_is_a_clear_error() {
    let result = Config::from_vars(ConfigVars { database_url: None, ..vars() });
    assert_eq!(result, Err(ConfigError::Missing("DATABASE_URL")));
}

#[test]
fn missing_telegram_token_is_a_clear_error() {
    let result = Config::from_vars(ConfigVars { telegram_token: None, ..vars() });
    assert_eq!(result, Err(ConfigError::Missing("TELEGRAM_BOT_TOKEN")));
}

#[test]
fn blank_required_variable_counts_as_missing() {
    let result = Config::from_vars(ConfigVars { database_url: Some("  \t".to_string()), ..vars() });
    assert_eq!(result, Err(ConfigError::Missing("DATABASE_URL")));
}

#[test]
fn defaults_apply_when_optional_vars_are_absent() {
    let config = Config::from_vars(vars()).unwrap();
    assert_eq!(config.poll_interval_secs, 60);
    assert_eq!(config.idle_prompt, IdlePromptConfig::default());
    assert_eq!(config.reminder_schedule, ReminderScheduleConfig::default());
    assert_eq!(config.database_url, "sqlite://./workbeat-test.db");
    assert_eq!(config.telegram_token, "test-token");
}

#[test]
fn optional_vars_override_defaults() {
    let config = Config::from_vars(ConfigVars {
        poll_interval_secs: Some("30".to_string()),
        idle_prompt_threshold_hours: Some("3".to_string()),
        reminder_burst_window_minutes: Some("10".to_string()),
        reminder_burst_interval_minutes: Some("2".to_string()),
        reminder_steady_interval_minutes: Some("7".to_string()),
        ..vars()
    })
    .unwrap();
    assert_eq!(config.poll_interval_secs, 30);
    assert_eq!(config.idle_prompt.idle_threshold, Duration::hours(3));
    assert_eq!(config.reminder_schedule.burst_window, Duration::minutes(10));
    assert_eq!(config.reminder_schedule.burst_interval, Duration::minutes(2));
    assert_eq!(config.reminder_schedule.steady_interval, Duration::minutes(7));
}

#[test]
fn invalid_optional_var_is_a_clear_error_not_a_panic() {
    let result = Config::from_vars(ConfigVars { poll_interval_secs: Some("not-a-number".to_string()), ..vars() });
    assert_eq!(
        result,
        Err(ConfigError::InvalidPositiveInt { name: "POLL_INTERVAL_SECS", value: "not-a-number".to_string() })
    );
}

#[test]
fn zero_is_rejected_for_positive_int_vars() {
    let result = Config::from_vars(ConfigVars { idle_prompt_threshold_hours: Some("0".to_string()), ..vars() });
    assert_eq!(
        result,
        Err(ConfigError::InvalidPositiveInt { name: "IDLE_PROMPT_THRESHOLD_HOURS", value: "0".to_string() })
    );
}

#[test]
fn values_are_trimmed_and_may_carry_a_plus_sign() {
    let config = Config::from_vars(ConfigVars {
        poll_interval_secs: Some(" +45\n".to_string()),
        reminder_steady_interval_minutes: Some("007".to_string()),
        ..vars()
    })
    .unwrap();
    assert_eq!(config.poll_interval_secs, 45);
    assert_eq!(config.reminder_schedule.steady_interval, Duration::minutes(7));
}

#[test]
fn negative_and_overflowing_values_are_rejected() {
    let negative = Config::from_vars(ConfigVars { reminder_burst_window_minutes: Some("-5".to_string()), ..vars() });
    assert_eq!(
        negative,
        Err(ConfigError::InvalidPositiveInt { name: "REMINDER_BURST_WINDOW_MINUTES", value: "-5".to_string() })
    );
    let too_big = Config::from_vars(ConfigVars { poll_interval_secs: Some("18446744073709551616".to_string()), ..vars() });
    assert_eq!(
        too_big,
        Err(ConfigError::InvalidPositiveInt { name: "POLL_INTERVAL_SECS", value: "18446744073709551616".to_string() })
    );
    let largest = Config::from_vars(ConfigVars { poll_interval_secs: Some("18446744073709551615".to_string()), ..vars() });
    assert_eq!(largest.unwrap().poll_interval_secs, u64::MAX);
}

#[test]
fn the_first_variable_at_fault_is_reported() {
    let result = Config::from_vars(ConfigVars {
        reminder_burst_interval_minutes: Some("x".to_string()),
        reminder_steady_interval_minutes: Some("y".to_string()),
        ..vars()
    });
    assert_eq!(
        result,
        Err(ConfigError::InvalidPositiveInt { name: "REMINDER_BURST_INTERVAL_MINUTES", value: "x".to_string() })
    );
}

#[test]
fn durations_that_do_not_fit_a_span_are_detected() {
    assert!(Config::durations_fit(&vars()));
    let huge = ConfigVars { idle_prompt_threshold_hours: Some("9000000000000".to_string()), ..vars() };
    assert!(!Config::durations_fit(&huge));
    let invalid = ConfigVars { idle_prompt_threshold_hours: Some("abc".to_string()), ..vars() };
    assert!(Config::durations_fit(&invalid));
}

#[test]
fn the_system_clock_reads_a_time_after_1970() {
    let now = SystemClock.now().expect("the clock reads a time after 1970");
    // 2020-01-01T00:00:00Z.
    assert!(now.value() > 1_577_836_800_000);
}

#[test]
fn building_fails_only_when_everything_else_is_valid() {
    let huge = ConfigVars { idle_prompt_threshold_hours: Some("9000000000000".to_string()), ..vars() };
    assert!(Config::is_valid(&huge));
    assert_eq!(Config::try_from_vars(huge.clone()), None);
    let huge_without_url = ConfigVars { database_url: None, ..huge };
    assert_eq!(
        Config::try_from_vars(huge_without_url),
        Some(Err(ConfigError::Missing("DATABASE_URL")))
    );
    assert_eq!(Config::try_from_vars(vars()), Some(Config::from_vars(vars())));
}

#[test]
fn elapsed_milliseconds_become_a_timestamp_up_to_the_last_instant() {
    assert_eq!(timestamp_of_millis(0).map(|t| t.value()), Some(0));
    assert_eq!(timestamp_of_millis(1_767_603_600_000).map(|t| t.value()), Some(1_767_603_600_000));
    let last = workbeat::value_objects::MAX_TIMESTAMP_MILLIS;
    assert_eq!(timestamp_of_millis(last as u128).map(|t| t.value()), Some(last));
    assert_eq!(timestamp_of_millis(last as u128 + 1), None);
    assert_eq!(timestamp_of_millis(u128::MAX), None);
}
