use cch::config::{Config, ConfigError, Settings};
use cch::rules::{Actions, Matchers, Rule, RuleMetadata};

fn rule_named(name: &str, tool: &str, block: Option<bool>, metadata: Option<RuleMetadata>) -> Rule {
    Rule {
        name: name.to_string(),
        description: None,
        matchers: Matchers {
            tools: Some(vec![tool.to_string()]),
            extensions: None,
            directories: None,
            operations: None,
            command_match: None,
        },
        actions: Actions { inject: None, run: None, block, block_if_match: None },
        mode: None,
        priority: None,
        governance: None,
        metadata,
    }
}

#[test]
fn test_config_validation() {
    let config = Config {
        version: "1.0".to_string(),
        rules: vec![{
            let mut r = rule_named(
                "test-rule",
                "Bash",
                Some(true),
                Some(RuleMetadata { priority: 0, timeout: 5, enabled: true }),
            );
            r.description = Some("Test rule".to_string());
            r
        }],
        settings: Settings::default(),
    };

    assert!(config.validate().is_ok());
}

#[test]
fn test_duplicate_rule_names() {
    let config = Config {
        version: "1.0".to_string(),
        rules: vec![
            rule_named("duplicate", "Bash", Some(true), None),
            rule_named("duplicate", "Edit", Some(false), None),
        ],
        settings: Settings::default(),
    };

    assert!(config.validate().is_err());
}

#[test]
fn test_rule_priority_sorting() {
    let config = Config {
        version: "1.0".to_string(),
        rules: vec![
            rule_named(
                "low-priority",
                "Bash",
                Some(true),
                Some(RuleMetadata { priority: 0, timeout: 5, enabled: true }),
            ),
            rule_named(
                "high-priority",
                "Edit",
                Some(false),
                Some(RuleMetadata { priority: 10, timeout: 5, enabled: true }),
            ),
        ],
        settings: Settings::default(),
    };

    let enabled_rules = config.enabled_rules();
    assert_eq!(enabled_rules[0].name, "high-priority");
    assert_eq!(enabled_rules[1].name, "low-priority");
}

#[test]
fn test_invalid_version_rejected() {
    let mut config = Config::default();
    config.version = "one.zero".to_string();
    let err = config.validate().unwrap_err();
    assert!(matches!(err, ConfigError::InvalidVersion { .. }));
    assert_eq!(err.message(), "Invalid version format: one.zero");
}

#[test]
fn test_version_needs_both_parts() {
    let mut config = Config::default();
    for bad in ["1", "1.", ".0", "1.0.1", "", "1 .0"] {
        config.version = bad.to_string();
        assert!(config.validate().is_err(), "version {:?} should be rejected", bad);
    }
    for good in ["1.0", "10.25", "0.1"] {
        config.version = good.to_string();
        assert!(config.validate().is_ok(), "version {:?} should be accepted", good);
    }
}

#[test]
fn test_invalid_rule_name_rejected() {
    let mut config = Config::default();
    config.rules = vec![rule_named("bad name!", "Bash", Some(true), None)];
    let err = config.validate().unwrap_err();
    assert!(matches!(err, ConfigError::InvalidRuleName { .. }));
    assert_eq!(err.message(), "Invalid rule name format: bad name!");
}

#[test]
fn test_empty_rule_name_rejected() {
    let mut config = Config::default();
    config.rules = vec![rule_named("", "Bash", Some(true), None)];
    assert!(config.validate().is_err());
}

#[test]
fn test_duplicate_error_names_the_rule() {
    let config = Config {
        version: "1.0".to_string(),
        rules: vec![
            rule_named("twice", "Bash", Some(true), None),
            rule_named("twice", "Edit", Some(false), None),
        ],
        settings: Settings::default(),
    };
    let err = config.validate().unwrap_err();
    assert_eq!(err.message(), "Duplicate rule name: twice");
}

#[test]
fn test_enabled_rules_drops_disabled() {
    let config = Config {
        version: "1.0".to_string(),
        rules: vec![
            rule_named(
                "off",
                "Bash",
                Some(true),
                Some(RuleMetadata { priority: 100, timeout: 5, enabled: false }),
            ),
            rule_named("on", "Bash", Some(true), None),
        ],
        settings: Settings::default(),
    };
    let enabled = config.enabled_rules();
    assert_eq!(enabled.len(), 1);
    assert_eq!(enabled[0].name, "on");
}

#[test]
fn test_default_config_is_empty_and_fail_open() {
    let config = Config::default();
    assert_eq!(config.version, "1.0");
    assert!(config.rules.is_empty());
    assert!(config.settings.fail_open);
    assert_eq!(config.settings.script_timeout, 5);
    assert_eq!(config.settings.max_context_size, 1024 * 1024);
    assert_eq!(config.settings.log_level, "info");
    assert!(!config.settings.debug_logs);
}
