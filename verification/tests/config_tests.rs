use ahk_rust::config::{Config, KeyMapping};
use ahk_rust::error::ConfigError;
use std::collections::HashSet;

fn mapping(key: &str, modifiers: &[&str]) -> KeyMapping {
    KeyMapping {
        key: key.to_string(),
        modifiers: modifiers.iter().map(|m| m.to_string()).collect(),
    }
}

fn names(list: &[&str]) -> Vec<String> {
    list.iter().map(|m| m.to_string()).collect()
}

#[test]
fn test_default_config_validation() {
    let config = Config::default();
    assert!(config.validate().is_ok());
}

#[test]
fn test_should_repeat_key() {
    let mut config = Config::default();
    config.mappings = vec![
        KeyMapping { key: "j".to_string(), modifiers: vec![] },
        KeyMapping { key: "space".to_string(), modifiers: vec!["ctrl".to_string()] },
    ];
    config.window.window_title_patterns = vec!["nvim".to_string()];
    config.build_optimization_indexes();
    assert!(config.should_repeat_key("j", &[], "nvim - file.txt"));
    assert!(!config.should_repeat_key("j", &[], "browser"));
}

#[test]
fn test_mapping_logic_examples_and_anti_examples() {
    let mut config1 = Config::default();
    config1.mappings = vec![KeyMapping { key: "1".into(), modifiers: vec![] }];
    config1.window.window_title_patterns = vec![];
    config1.build_optimization_indexes();
    assert!(config1.should_repeat_key("1", &[], "any"));
    assert!(!config1.should_repeat_key("1", &["ctrl".into()], "any"));
    assert!(!config1.should_repeat_key("1", &["shift".into()], "any"));

    let mut config2 = Config::default();
    config2.mappings = vec![KeyMapping { key: "1".into(), modifiers: vec!["ctrl".into()] }];
    config2.window.window_title_patterns = vec![];
    config2.build_optimization_indexes();
    assert!(config2.should_repeat_key("1", &[], "any"));
    assert!(config2.should_repeat_key("1", &["ctrl".into()], "any"));
    assert!(!config2.should_repeat_key("1", &["ctrl".into(), "alt".into()], "any"));
    assert!(!config2.should_repeat_key("1", &["shift".into()], "any"));

    let mut config3 = Config::default();
    config3.mappings =
        vec![KeyMapping { key: "space".into(), modifiers: vec!["ctrl".into(), "alt".into()] }];
    config3.window.window_title_patterns = vec![];
    config3.build_optimization_indexes();
    assert!(config3.should_repeat_key("space", &[], "any"));
    assert!(config3.should_repeat_key("space", &["ctrl".into()], "any"));
    assert!(config3.should_repeat_key("space", &["alt".into()], "any"));
    assert!(config3.should_repeat_key("space", &["ctrl".into(), "alt".into()], "any"));
    assert!(!config3.should_repeat_key("space", &["shift".into()], "any"));

    let mut config4 = Config::default();
    config4.mappings = vec![KeyMapping { key: "j".into(), modifiers: vec![] }];
    config4.window.window_title_patterns = vec!["nvim".into()];
    config4.build_optimization_indexes();
    assert!(config4.should_repeat_key("j", &[], "NVIM — file.txt"));
    assert!(!config4.should_repeat_key("j", &[], "browser"));

    let mut config5 = Config::default();
    config5.mappings = vec![];
    config5.window.window_title_patterns.clear();
    config5.build_optimization_indexes();
    assert!(!config5.should_repeat_key("k", &[], "any"));

    let mut config6 = Config::default();
    config6.mappings = vec![KeyMapping { key: "space".into(), modifiers: vec!["ctrl".into()] }];
    config6.window.window_title_patterns.clear();
    config6.build_optimization_indexes();
    assert!(config6.should_repeat_key("space", &[], "any"));
}

#[test]
fn test_get_all_keys() {
    let mut config = Config::default();
    config.mappings = vec![
        KeyMapping { key: "j".to_string(), modifiers: vec!["ctrl".to_string()] },
        KeyMapping { key: "k".to_string(), modifiers: vec!["shift".to_string()] },
    ];
    config.window.window_title_patterns = vec!["nvim".to_string()];

    let listed = config.get_all_keys();
    assert_eq!(listed.len(), 4);
    let keys: HashSet<String> = listed.into_iter().collect();
    let expected: HashSet<String> =
        ["j", "k", "ctrl", "shift"].iter().map(|s| s.to_string()).collect();

    assert_eq!(keys, expected);
}

#[test]
fn get_all_keys_lists_a_shared_word_once() {
    let mut config = Config::default();
    config.mappings = vec![mapping("j", &["ctrl", "alt"]), mapping("k", &["ctrl"]), mapping("j", &[])];
    let listed = config.get_all_keys();
    assert_eq!(listed, names(&["j", "ctrl", "alt", "k"]));
}

#[test]
fn default_config_has_the_documented_values() {
    let config = Config::default();
    assert_eq!(config.logging.level, "info");
    assert_eq!(config.logging.format, "pretty");
    assert_eq!(config.logging.filter, "ahk_rust=info");
    assert_eq!(config.input.device_path, "auto");
    assert_eq!(config.repeat.repeat_delay_ms, 50);
    assert_eq!(config.repeat.repeat_toggle_key, None);
    assert_eq!(config.window.detection_mode, "dbus");
    assert_eq!(config.window.polling_interval_ms, 1000);
    assert!(config.window.window_title_patterns.is_empty());
    assert!(config.mappings().is_empty());
}

#[test]
fn space_with_ctrl_and_alt_allowed() {
    let mut config = Config::default();
    config.mappings = vec![mapping("space", &["ctrl", "alt"])];
    config.build_optimization_indexes();
    assert!(config.should_repeat_key("space", &names(&[]), "any"));
    assert!(config.should_repeat_key("space", &names(&["ctrl"]), "any"));
    assert!(config.should_repeat_key("space", &names(&["alt"]), "any"));
    assert!(config.should_repeat_key("space", &names(&["ctrl", "alt"]), "any"));
    assert!(!config.should_repeat_key("space", &names(&["shift"]), "any"));
    assert!(!config.should_repeat_key("space", &names(&["ctrl", "shift"]), "any"));
}

#[test]
fn key_without_modifiers_follows_the_window_only_when_bare() {
    let mut config = Config::default();
    config.mappings = vec![mapping("j", &[])];
    config.window.window_title_patterns = names(&["nvim", "term"]);
    config.build_optimization_indexes();
    assert!(config.should_repeat_key("j", &[], "My Terminal"));
    assert!(config.should_repeat_key("j", &[], "NVIM"));
    assert!(!config.should_repeat_key("j", &[], "Browser"));
    assert!(!config.should_repeat_key("j", &names(&["ctrl"]), "NVIM"));
    assert!(!config.should_repeat_key("j", &names(&["super"]), "My Terminal"));
}

#[test]
fn a_second_mapping_of_a_key_can_allow_what_the_first_does_not() {
    let mut config = Config::default();
    config.mappings = vec![mapping("j", &[]), mapping("j", &["shift"])];
    config.build_optimization_indexes();
    assert!(config.should_repeat_key("j", &names(&["shift"]), "any"));
    assert!(!config.should_repeat_key("j", &names(&["ctrl"]), "any"));
}

#[test]
fn patterns_are_matched_in_lower_case_on_both_sides() {
    let mut config = Config::default();
    config.mappings = vec![mapping("j", &[])];
    config.window.window_title_patterns = names(&["NVim"]);
    config.build_optimization_indexes();
    assert!(config.should_repeat_key("j", &[], "nvim"));
    assert!(config.should_repeat_key("j", &[], "xNVIMx"));
    assert!(!config.should_repeat_key("j", &[], "nvi m"));
    assert!(!config.should_repeat_key("j", &[], ""));
}

#[test]
fn indexes_follow_the_mappings_after_a_rebuild() {
    let mut config = Config::default();
    config.mappings = vec![mapping("j", &[])];
    config.build_optimization_indexes();
    assert!(config.should_repeat_key("j", &[], "any"));
    config.mappings = vec![mapping("k", &[])];
    config.build_optimization_indexes();
    assert!(!config.should_repeat_key("j", &[], "any"));
    assert!(config.should_repeat_key("k", &[], "any"));
}

#[test]
fn validation_names_the_first_fault() {
    let mut config = Config::default();
    config.logging.level = "loud".to_string();
    config.logging.format = "xml".to_string();
    assert_eq!(config.validate(), Err(ConfigError::InvalidLogLevel("loud".to_string())));

    let mut config = Config::default();
    config.logging.format = "xml".to_string();
    config.repeat.repeat_delay_ms = 0;
    assert_eq!(config.validate(), Err(ConfigError::InvalidLogFormat("xml".to_string())));

    let mut config = Config::default();
    config.repeat.repeat_delay_ms = 0;
    config.window.detection_mode = "magic".to_string();
    assert_eq!(config.validate(), Err(ConfigError::ZeroRepeatDelay));

    let mut config = Config::default();
    config.window.detection_mode = "magic".to_string();
    config.window.polling_interval_ms = 99;
    assert_eq!(config.validate(), Err(ConfigError::InvalidDetectionMode("magic".to_string())));

    let mut config = Config::default();
    config.window.polling_interval_ms = 99;
    config.mappings = vec![mapping("", &[])];
    assert_eq!(config.validate(), Err(ConfigError::PollingIntervalTooShort));

    let mut config = Config::default();
    config.window.polling_interval_ms = 100;
    config.mappings = vec![mapping("a", &["ctrl"]), mapping("", &["hyper"])];
    assert_eq!(config.validate(), Err(ConfigError::EmptyMappingKey { mapping: 2 }));

    let mut config = Config::default();
    config.mappings = vec![mapping("a", &["ctrl", "hyper", "meta"]), mapping("", &[])];
    assert_eq!(
        config.validate(),
        Err(ConfigError::InvalidModifier { modifier: "hyper".to_string(), mapping: 1 })
    );
}

#[test]
fn validation_accepts_every_known_value() {
    for level in ["trace", "debug", "info", "warn", "error"] {
        for format in ["pretty", "json"] {
            for mode in ["dbus", "polling"] {
                let mut config = Config::default();
                config.logging.level = level.to_string();
                config.logging.format = format.to_string();
                config.window.detection_mode = mode.to_string();
                config.repeat.repeat_delay_ms = 1;
                config.window.polling_interval_ms = 100;
                config.mappings = vec![mapping("j", &["ctrl", "alt", "shift", "super"])];
                assert_eq!(config.validate(), Ok(()));
            }
        }
    }
}

#[test]
fn validation_is_case_sensitive() {
    let mut config = Config::default();
    config.logging.level = "INFO".to_string();
    assert_eq!(config.validate(), Err(ConfigError::InvalidLogLevel("INFO".to_string())));
    let mut config = Config::default();
    config.mappings = vec![mapping("j", &["Ctrl"])];
    assert_eq!(
        config.validate(),
        Err(ConfigError::InvalidModifier { modifier: "Ctrl".to_string(), mapping: 1 })
    );
}

#[test]
fn config_error_messages() {
    assert_eq!(
        ConfigError::InvalidLogLevel("loud".to_string()).message(),
        "Неверный уровень логирования: loud"
    );
    assert_eq!(
        ConfigError::InvalidLogFormat("xml".to_string()).message(),
        "Неверный формат логирования: xml"
    );
    assert_eq!(ConfigError::ZeroRepeatDelay.message(), "repeat_delay_ms должно быть больше 0");
    assert_eq!(
        ConfigError::InvalidDetectionMode("magic".to_string()).message(),
        "Неверный режим детекции окон: magic"
    );
    assert_eq!(
        ConfigError::PollingIntervalTooShort.message(),
        "polling_interval_ms должно быть минимум 100"
    );
    assert_eq!(
        ConfigError::EmptyMappingKey { mapping: 12 }.message(),
        "Пустая клавиша в маппинге #12"
    );
    assert_eq!(
        ConfigError::InvalidModifier { modifier: "hyper".to_string(), mapping: 3 }.message(),
        "Неверный модификатор 'hyper' в маппинге #3"
    );
}
