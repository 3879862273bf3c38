use cch::modes::{Confidence, Decision, PolicyMode, TrustLevel};
use cch::config::DebugConfig;
use cch::response::{Response, ResponseSummary};
use cch::rules::{sort_rules_by_priority, Actions, GovernanceMetadata, Matchers, Rule, RuleMetadata};

fn empty_matchers() -> Matchers {
    Matchers { tools: None, extensions: None, directories: None, operations: None, command_match: None }
}

fn empty_actions() -> Actions {
    Actions { inject: None, run: None, block: None, block_if_match: None }
}

fn bare_rule(name: &str) -> Rule {
    Rule {
        name: name.to_string(),
        description: None,
        matchers: empty_matchers(),
        actions: empty_actions(),
        mode: None,
        priority: None,
        governance: None,
        metadata: None,
    }
}

fn create_test_rule(name: &str, priority: i32) -> Rule {
    let mut rule = bare_rule(name);
    rule.priority = Some(priority);
    rule
}

#[test]
fn test_policy_mode_default() {
    let mode = PolicyMode::default();
    assert_eq!(mode, PolicyMode::Enforce);
}

#[test]
fn test_policy_mode_display() {
    assert_eq!(PolicyMode::Enforce.as_str(), "enforce");
    assert_eq!(PolicyMode::Warn.as_str(), "warn");
    assert_eq!(PolicyMode::Audit.as_str(), "audit");
}

#[test]
fn test_confidence_display() {
    assert_eq!(Confidence::High.as_str(), "high");
    assert_eq!(Confidence::Medium.as_str(), "medium");
    assert_eq!(Confidence::Low.as_str(), "low");
}

#[test]
fn test_decision_display() {
    assert_eq!(Decision::Allowed.as_str(), "allowed");
    assert_eq!(Decision::Blocked.as_str(), "blocked");
    assert_eq!(Decision::Warned.as_str(), "warned");
    assert_eq!(Decision::Audited.as_str(), "audited");
}

#[test]
fn test_decision_from_str() {
    assert_eq!(Decision::from_str("allowed").unwrap(), Decision::Allowed);
    assert_eq!(Decision::from_str("blocked").unwrap(), Decision::Blocked);
    assert_eq!(Decision::from_str("warned").unwrap(), Decision::Warned);
    assert_eq!(Decision::from_str("audited").unwrap(), Decision::Audited);
    // Case insensitive
    assert_eq!(Decision::from_str("ALLOWED").unwrap(), Decision::Allowed);
    assert_eq!(Decision::from_str("Blocked").unwrap(), Decision::Blocked);
    // Invalid value
    assert!(Decision::from_str("invalid").is_err());
}

#[test]
fn test_decision_from_str_error_message() {
    let err = Decision::from_str("invalid").unwrap_err();
    assert_eq!(err, "Invalid decision: invalid");
}

#[test]
fn test_trust_level_default() {
    assert_eq!(TrustLevel::default(), TrustLevel::Local);
}

#[test]
fn test_trust_level_display() {
    assert_eq!(TrustLevel::Local.as_str(), "local");
    assert_eq!(TrustLevel::Verified.as_str(), "verified");
    assert_eq!(TrustLevel::Untrusted.as_str(), "untrusted");
}

#[test]
fn test_governance_metadata_default() {
    let meta = GovernanceMetadata::default();
    assert!(meta.author.is_none());
    assert!(meta.created_by.is_none());
    assert!(meta.reason.is_none());
    assert!(meta.confidence.is_none());
    assert!(meta.last_reviewed.is_none());
    assert!(meta.ticket.is_none());
    assert!(meta.tags.is_none());
}

#[test]
fn test_rule_effective_mode_default() {
    let rule = bare_rule("test");
    assert_eq!(rule.effective_mode(), PolicyMode::Enforce);
}

#[test]
fn test_rule_effective_mode_explicit() {
    let mut rule = bare_rule("test");
    rule.mode = Some(PolicyMode::Audit);
    assert_eq!(rule.effective_mode(), PolicyMode::Audit);
}

#[test]
fn test_rule_effective_priority_default() {
    let rule = bare_rule("test");
    assert_eq!(rule.effective_priority(), 0);
}

#[test]
fn test_rule_effective_priority_explicit() {
    let mut rule = bare_rule("test");
    rule.priority = Some(100);
    assert_eq!(rule.effective_priority(), 100);
}

#[test]
fn test_rule_effective_priority_from_legacy_metadata() {
    let mut rule = bare_rule("test");
    rule.metadata = Some(RuleMetadata { priority: 50, timeout: 5, enabled: true });
    assert_eq!(rule.effective_priority(), 50);
}

#[test]
fn test_rule_new_priority_takes_precedence() {
    let mut rule = bare_rule("test");
    rule.priority = Some(100);
    rule.metadata = Some(RuleMetadata { priority: 50, timeout: 5, enabled: true });
    assert_eq!(rule.effective_priority(), 100);
}

#[test]
fn test_sort_rules_by_priority() {
    let mut rules = vec![
        create_test_rule("low", 0),
        create_test_rule("high", 100),
        create_test_rule("medium", 50),
    ];

    sort_rules_by_priority(&mut rules);

    assert_eq!(rules[0].name, "high");
    assert_eq!(rules[1].name, "medium");
    assert_eq!(rules[2].name, "low");
}

#[test]
fn test_sort_rules_stable_for_same_priority() {
    let mut rules = vec![
        create_test_rule("first", 0),
        create_test_rule("second", 0),
        create_test_rule("third", 0),
    ];

    sort_rules_by_priority(&mut rules);

    assert_eq!(rules[0].name, "first");
    assert_eq!(rules[1].name, "second");
    assert_eq!(rules[2].name, "third");
}

#[test]
fn test_sort_rules_mixed_priorities() {
    let mut rules = vec![
        create_test_rule("low", 0),
        create_test_rule("very-high", 200),
        create_test_rule("medium-1", 50),
        create_test_rule("medium-2", 50),
        create_test_rule("high", 100),
    ];

    sort_rules_by_priority(&mut rules);

    assert_eq!(rules[0].name, "very-high");
    assert_eq!(rules[1].name, "high");
    assert_eq!(rules[2].name, "medium-1");
    assert_eq!(rules[3].name, "medium-2");
    assert_eq!(rules[4].name, "low");
}

#[test]
fn test_response_summary_from_response() {
    let response = Response {
        continue_: true,
        context: Some("injected context".to_string()),
        reason: Some("for testing".to_string()),
        timing: None,
    };

    let summary = ResponseSummary::from_response(&response);
    assert!(summary.continue_);
    assert_eq!(summary.reason, Some("for testing".to_string()));
    assert_eq!(summary.context_length, Some(16)); // "injected context" = 16 chars
}

#[test]
fn test_debug_config_new() {
    // Test CLI flag only
    let config = DebugConfig::new(true, false);
    assert!(config.enabled);

    // Test config setting only
    let config = DebugConfig::new(false, true);
    assert!(config.enabled);

    // Test both false
    let config = DebugConfig::new(false, false);
    assert!(!config.enabled);
}

#[test]
fn test_run_action_accessors() {
    let simple = cch::rules::RunAction::Simple(".cch/validators/check.py".to_string());
    assert_eq!(simple.script_path(), ".cch/validators/check.py");
    assert_eq!(simple.trust_level(), TrustLevel::Local);

    let extended = cch::rules::RunAction::Extended {
        script: ".cch/validators/check.py".to_string(),
        trust: Some(TrustLevel::Verified),
    };
    assert_eq!(extended.script_path(), ".cch/validators/check.py");
    assert_eq!(extended.trust_level(), TrustLevel::Verified);

    let extended_default = cch::rules::RunAction::Extended {
        script: ".cch/validators/check.py".to_string(),
        trust: None,
    };
    assert_eq!(extended_default.trust_level(), TrustLevel::Local);
}

#[test]
fn test_actions_accessors() {
    let mut actions = empty_actions();
    assert!(actions.script_path().is_none());
    assert!(actions.trust_level().is_none());
    actions.run = Some(cch::rules::RunAction::Simple(".cch/validators/test.sh".to_string()));
    assert_eq!(actions.script_path(), Some(".cch/validators/test.sh"));
    assert_eq!(actions.trust_level(), Some(TrustLevel::Local));
}
