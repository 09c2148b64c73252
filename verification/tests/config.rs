use standing_desk_reminder::config::{Config, ConfigError, Phase, DEFAULT_CONFIG_TEMPLATE};
use standing_desk_reminder::humane::parse_duration;
use standing_desk_reminder::span::Span;

#[test]
fn default_template_matches_default() {
    let parsed: toml::Table = toml::from_str(DEFAULT_CONFIG_TEMPLATE).unwrap();
    let default = Config::default();
    let duration = |key: &str| parse_duration(parsed[key].as_str().unwrap()).unwrap();
    assert_eq!(duration("sit_duration"), default.sit_duration);
    assert_eq!(duration("stand_duration"), default.stand_duration);
    assert_eq!(parsed["stand_message"].as_str().unwrap(), default.stand_message);
    assert_eq!(parsed["sit_message"].as_str().unwrap(), default.sit_message);
    assert_eq!(parsed["sound"].as_bool().unwrap(), default.sound);
    assert_eq!(parsed["start_phase"].as_str().unwrap(), default.start_phase.name());
    assert!(!parsed.contains_key("snooze_duration"));
    assert_eq!(parsed.len(), 6);
}

#[test]
fn default_config_is_valid() {
    Config::default().validate().unwrap();
}

#[test]
fn zero_duration_is_rejected() {
    let config = Config {
        stand_duration: Span::zero(),
        ..Config::default()
    };
    assert!(config.validate().is_err());
}

#[test]
fn phase_round_trips() {
    assert_eq!(Phase::Sitting.other(), Phase::Standing);
    assert_eq!(Phase::Standing.other(), Phase::Sitting);
}

#[test]
fn default_config_values() {
    let config = Config::default();
    assert_eq!(config.sit_duration, Span::from_secs(45 * 60));
    assert_eq!(config.stand_duration, Span::from_secs(15 * 60));
    assert_eq!(config.snooze_duration, Span::from_secs(5 * 60));
    assert_eq!(config.stand_message, "Time to stand up and stretch your legs.");
    assert_eq!(config.sit_message, "Time to sit down for a bit.");
    assert!(config.sound);
    assert_eq!(config.start_phase, Phase::Sitting);
}

#[test]
fn duration_and_message_follow_phase() {
    let config = Config::default();
    assert_eq!(config.duration(Phase::Sitting), Span::from_secs(2700));
    assert_eq!(config.duration(Phase::Standing), Span::from_secs(900));
    assert_eq!(config.message(Phase::Sitting), "Time to sit down for a bit.");
    assert_eq!(config.message(Phase::Standing), "Time to stand up and stretch your legs.");
}

#[test]
fn zero_sit_duration_is_reported_first() {
    let both = Config {
        sit_duration: Span::zero(),
        stand_duration: Span::zero(),
        ..Config::default()
    };
    assert_eq!(both.validate(), Err(ConfigError::ZeroSitDuration));
    assert_eq!(
        ConfigError::ZeroSitDuration.message(),
        "`sit_duration` must be greater than zero"
    );
    let stand = Config {
        stand_duration: Span::zero(),
        ..Config::default()
    };
    assert_eq!(stand.validate(), Err(ConfigError::ZeroStandDuration));
    assert_eq!(
        ConfigError::ZeroStandDuration.message(),
        "`stand_duration` must be greater than zero"
    );
}

#[test]
fn sub_second_durations_are_valid() {
    let config = Config {
        sit_duration: Span::new(0, 1),
        stand_duration: Span::from_millis(1),
        ..Config::default()
    };
    assert_eq!(config.validate(), Ok(()));
}

#[test]
fn phase_names() {
    assert_eq!(Phase::Sitting.name(), "sitting");
    assert_eq!(Phase::Standing.name(), "standing");
}
