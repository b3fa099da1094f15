use tomatui::config::{Config, ConfigError, DurationField, OnEnd};

#[test]
fn default_values_are_valid() {
    let config = Config::default();
    assert_eq!(config.work_minutes, 25);
    assert_eq!(config.break_minutes, 5);
    assert_eq!(config.long_break_minutes, 15);
    assert_eq!(config.sessions, 4);
    assert!(config.timer_config().is_ok());
}

#[test]
fn invalid_values_are_rejected() {
    let config = Config {
        work_minutes: 0,
        ..Config::default()
    };
    assert!(config.timer_config().is_err());

    let config = Config {
        sessions: 0,
        ..Config::default()
    };
    assert!(config.timer_config().is_err());

    let config = Config {
        work_minutes: u64::MAX,
        ..Config::default()
    };
    assert!(config.timer_config().is_err());
}

#[test]
fn timer_settings_are_in_seconds() {
    let config = Config {
        work_minutes: 30,
        break_minutes: 10,
        long_break_minutes: 20,
        sessions: 6,
        on_end: OnEnd::Ask,
    };
    let timer = config.timer_config().unwrap();
    assert_eq!(timer.work_secs, 1800);
    assert_eq!(timer.break_secs, 600);
    assert_eq!(timer.long_break_secs, 1200);
    assert_eq!(timer.sessions, 6);
    assert_eq!(timer.on_end, OnEnd::Ask);
}

#[test]
fn errors_name_the_first_problem() {
    let config = Config {
        break_minutes: 0,
        long_break_minutes: u64::MAX,
        sessions: 0,
        ..Config::default()
    };
    let error = config.validate().unwrap_err();
    assert_eq!(error, ConfigError::ZeroMinutes(DurationField::Break));
    assert_eq!(error.message(), "break duration must be at least 1 minute");

    let config = Config {
        long_break_minutes: u64::MAX / 60 + 1,
        ..Config::default()
    };
    let error = config.validate().unwrap_err();
    assert_eq!(error, ConfigError::TooLarge(DurationField::LongBreak));
    assert_eq!(error.message(), "long break duration is too large");

    let config = Config {
        sessions: 0,
        ..Config::default()
    };
    assert_eq!(
        config.validate().unwrap_err().message(),
        "sessions must be at least 1"
    );
    let config = Config {
        long_break_minutes: u64::MAX / 60,
        ..Config::default()
    };
    assert!(config.validate().is_ok());
}

#[test]
fn overrides_replace_only_given_values() {
    let config = Config::default().overridden(Some(45), None, Some(20), None, Some(OnEnd::Quit));
    assert_eq!(
        config,
        Config {
            work_minutes: 45,
            break_minutes: 5,
            long_break_minutes: 20,
            sessions: 4,
            on_end: OnEnd::Quit,
        }
    );
    assert_eq!(OnEnd::default(), OnEnd::Start);
}
