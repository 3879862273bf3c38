use cch::events::{Event, EventType, ToolInput};
use cch::hooks::{
    determine_decision, merge_responses, merge_responses_with_mode, mode_precedence,
    resolve_conflicts, rule_takes_precedence, RuleConflictEntry,
};
use cch::matcher::matches_rule;
use cch::modes::{Decision, PolicyMode};
use cch::response::Response;
use cch::rules::{Actions, Matchers, Rule};

fn empty_tool_input() -> ToolInput {
    ToolInput {
        command: None,
        file_path: None,
        new_content: None,
        pattern: None,
        path: None,
        source: None,
        reason: None,
        transcript_path: None,
        cwd: None,
    }
}

fn bash_event(command: &str) -> Event {
    let mut ti = empty_tool_input();
    ti.command = Some(command.to_string());
    Event {
        event_type: EventType::PreToolUse,
        tool_name: Some("Bash".to_string()),
        tool_input: Some(ti),
        session_id: "test-session".to_string(),
        timestamp: 0,
        user_id: None,
        transcript_path: None,
        cwd: None,
        permission_mode: None,
        tool_use_id: None,
    }
}

fn force_push_rule() -> Rule {
    Rule {
        name: "block-force-push".to_string(),
        description: Some("Block force push".to_string()),
        matchers: Matchers {
            tools: Some(vec!["Bash".to_string()]),
            command_match: Some(r"git push.*--force".to_string()),
            extensions: None,
            directories: None,
            operations: None,
        },
        actions: Actions { block: Some(true), inject: None, run: None, block_if_match: None },
        mode: None,
        priority: None,
        governance: None,
        metadata: None,
    }
}

fn create_rule_with_mode(name: &str, mode: PolicyMode, priority: i32) -> Rule {
    Rule {
        name: name.to_string(),
        description: Some(format!("{} rule", name)),
        matchers: Matchers {
            tools: None,
            extensions: None,
            directories: None,
            operations: None,
            command_match: None,
        },
        actions: Actions { inject: None, run: None, block: Some(true), block_if_match: None },
        mode: Some(mode),
        priority: Some(priority),
        governance: None,
        metadata: None,
    }
}

#[test]
fn test_rule_matching() {
    let event = bash_event("git push --force");
    let rule = force_push_rule();
    assert!(matches_rule(&event, &rule));
}

#[test]
fn test_rule_non_matching() {
    let event = bash_event("git status");
    let rule = force_push_rule();
    assert!(!matches_rule(&event, &rule));
}

#[test]
fn test_response_merging() {
    let allow = Response::allow();
    let block = Response::block("blocked");
    let inject = Response::inject("context");

    // Block takes precedence
    let merged = merge_responses(allow, block);
    assert!(!merged.continue_);

    // Inject accumulates
    let merged = merge_responses(inject.clone(), inject);
    assert!(merged.continue_);
    assert!(merged.context.as_ref().unwrap().contains("context"));
}

#[test]
fn test_determine_decision_enforce_blocked() {
    let response = Response::block("blocked");
    let decision = determine_decision(&response, PolicyMode::Enforce);
    assert_eq!(decision, Decision::Blocked);
}

#[test]
fn test_determine_decision_enforce_allowed() {
    let response = Response::allow();
    let decision = determine_decision(&response, PolicyMode::Enforce);
    assert_eq!(decision, Decision::Allowed);
}

#[test]
fn test_determine_decision_warn_mode() {
    let response = Response::inject("warning context");
    let decision = determine_decision(&response, PolicyMode::Warn);
    assert_eq!(decision, Decision::Warned);
}

#[test]
fn test_determine_decision_audit_mode() {
    // In audit mode, everything is Audited regardless of response
    let response = Response::block("would block");
    let decision = determine_decision(&response, PolicyMode::Audit);
    assert_eq!(decision, Decision::Audited);
}

#[test]
fn test_merge_responses_with_mode_enforce() {
    let allow = Response::allow();
    let block = Response::block("blocked");

    // In enforce mode, block takes precedence
    let merged = merge_responses_with_mode(allow, block, PolicyMode::Enforce);
    assert!(!merged.continue_);
}

#[test]
fn test_merge_responses_with_mode_warn() {
    let allow = Response::allow();
    let warning = Response::inject("warning");

    // In warn mode, warnings accumulate but never block
    let merged = merge_responses_with_mode(allow, warning, PolicyMode::Warn);
    assert!(merged.continue_);
    assert!(merged.context.is_some());
}

#[test]
fn test_rule_effective_mode_defaults_to_enforce() {
    let rule = Rule {
        name: "test".to_string(),
        description: None,
        matchers: Matchers {
            tools: None,
            extensions: None,
            directories: None,
            operations: None,
            command_match: None,
        },
        actions: Actions { inject: None, run: None, block: None, block_if_match: None },
        mode: None, // No mode specified
        priority: None,
        governance: None,
        metadata: None,
    };
    assert_eq!(rule.effective_mode(), PolicyMode::Enforce);
}

#[test]
fn test_rule_effective_mode_explicit_audit() {
    let rule = Rule {
        name: "test".to_string(),
        description: None,
        matchers: Matchers {
            tools: None,
            extensions: None,
            directories: None,
            operations: None,
            command_match: None,
        },
        actions: Actions { inject: None, run: None, block: None, block_if_match: None },
        mode: Some(PolicyMode::Audit),
        priority: None,
        governance: None,
        metadata: None,
    };
    assert_eq!(rule.effective_mode(), PolicyMode::Audit);
}

#[test]
fn test_mode_precedence() {
    assert!(mode_precedence(PolicyMode::Enforce) > mode_precedence(PolicyMode::Warn));
    assert!(mode_precedence(PolicyMode::Warn) > mode_precedence(PolicyMode::Audit));
    assert!(mode_precedence(PolicyMode::Enforce) > mode_precedence(PolicyMode::Audit));
}

#[test]
fn test_rule_takes_precedence_mode_wins() {
    let enforce_rule = create_rule_with_mode("enforce", PolicyMode::Enforce, 0);
    let warn_rule = create_rule_with_mode("warn", PolicyMode::Warn, 100);

    // Enforce wins over warn even with lower priority
    assert!(rule_takes_precedence(&enforce_rule, &warn_rule));
    assert!(!rule_takes_precedence(&warn_rule, &enforce_rule));
}

#[test]
fn test_rule_takes_precedence_same_mode_priority_wins() {
    let high_priority = create_rule_with_mode("high", PolicyMode::Enforce, 100);
    let low_priority = create_rule_with_mode("low", PolicyMode::Enforce, 0);

    assert!(rule_takes_precedence(&high_priority, &low_priority));
    assert!(!rule_takes_precedence(&low_priority, &high_priority));
}

#[test]
fn test_resolve_conflicts_enforce_block_wins() {
    let enforce_rule = create_rule_with_mode("enforce", PolicyMode::Enforce, 100);
    let warn_rule = create_rule_with_mode("warn", PolicyMode::Warn, 50);

    let entries = vec![
        RuleConflictEntry {
            rule: enforce_rule,
            response: Response::block("Blocked by enforce rule"),
            mode: PolicyMode::Enforce,
            priority: 100,
        },
        RuleConflictEntry {
            rule: warn_rule,
            response: Response::inject("Warning from warn rule"),
            mode: PolicyMode::Warn,
            priority: 50,
        },
    ];

    let resolved = resolve_conflicts(&entries);
    assert!(!resolved.continue_); // Block wins
    assert!(resolved.reason.as_ref().unwrap().contains("enforce"));
}

#[test]
fn test_resolve_conflicts_warnings_accumulate() {
    let warn_rule1 = create_rule_with_mode("warn1", PolicyMode::Warn, 100);
    let warn_rule2 = create_rule_with_mode("warn2", PolicyMode::Warn, 50);

    let entries = vec![
        RuleConflictEntry {
            rule: warn_rule1,
            response: Response::inject("Warning 1"),
            mode: PolicyMode::Warn,
            priority: 100,
        },
        RuleConflictEntry {
            rule: warn_rule2,
            response: Response::inject("Warning 2"),
            mode: PolicyMode::Warn,
            priority: 50,
        },
    ];

    let resolved = resolve_conflicts(&entries);
    assert!(resolved.continue_); // No blocking in warn mode
    let context = resolved.context.unwrap();
    assert!(context.contains("Warning 1"));
    assert!(context.contains("Warning 2"));
}

#[test]
fn test_resolve_conflicts_empty_allows() {
    let resolved = resolve_conflicts(&[]);
    assert!(resolved.continue_);
    assert!(resolved.context.is_none());
}

#[test]
fn test_resolve_conflicts_audit_only_allows() {
    let audit_rule = create_rule_with_mode("audit", PolicyMode::Audit, 100);

    let entries = vec![RuleConflictEntry {
        rule: audit_rule,
        response: Response::allow(), // Audit mode produces allow
        mode: PolicyMode::Audit,
        priority: 100,
    }];

    let resolved = resolve_conflicts(&entries);
    assert!(resolved.continue_);
}

#[test]
fn test_resolve_conflicts_mixed_modes() {
    let enforce_rule = create_rule_with_mode("enforce", PolicyMode::Enforce, 50);
    let warn_rule = create_rule_with_mode("warn", PolicyMode::Warn, 100);
    let audit_rule = create_rule_with_mode("audit", PolicyMode::Audit, 200);

    // Enforce injects, warn injects, audit does nothing
    let entries = vec![
        RuleConflictEntry {
            rule: enforce_rule,
            response: Response::inject("Enforce context"),
            mode: PolicyMode::Enforce,
            priority: 50,
        },
        RuleConflictEntry {
            rule: warn_rule,
            response: Response::inject("Warning context"),
            mode: PolicyMode::Warn,
            priority: 100,
        },
        RuleConflictEntry {
            rule: audit_rule,
            response: Response::allow(),
            mode: PolicyMode::Audit,
            priority: 200,
        },
    ];

    let resolved = resolve_conflicts(&entries);
    assert!(resolved.continue_);
    let context = resolved.context.unwrap();
    // Enforce comes first, then warn
    assert!(context.contains("Enforce context"));
    assert!(context.contains("Warning context"));
    assert!(context.starts_with("Enforce context"));
}

#[test]
fn test_fold_responses_order() {
    let folded = cch::hooks::fold_responses(vec![
        Response::inject("first"),
        Response::inject("second"),
    ]);
    assert!(folded.continue_);
    assert_eq!(folded.context.unwrap(), "first\n\nsecond");
}

#[test]
fn test_fold_responses_block_truncates() {
    let folded = cch::hooks::fold_responses(vec![
        Response::inject("context before"),
        Response::block("stop"),
    ]);
    assert!(!folded.continue_);
    assert_eq!(folded.reason.unwrap(), "stop");
}

#[test]
fn test_merge_block_is_absorbing() {
    // Once a block is set, a later injection neither clears nor extends it.
    let merged = merge_responses(Response::block("first"), Response::inject("later"));
    assert!(!merged.continue_);
    assert_eq!(merged.reason, Some("first".to_string()));
    assert!(merged.context.is_none());

    // A later block does not replace the one already set.
    let merged = merge_responses(Response::block("first"), Response::block("second"));
    assert!(!merged.continue_);
    assert_eq!(merged.reason, Some("first".to_string()));
}

#[test]
fn test_fold_first_block_wins() {
    // The first block in evaluation order - the highest-priority one -
    // decides the outcome; everything after it is ignored.
    let folded = cch::hooks::fold_responses(vec![
        Response::inject("a"),
        Response::block("one"),
        Response::block("two"),
        Response::inject("b"),
    ]);
    assert!(!folded.continue_);
    assert_eq!(folded.reason, Some("one".to_string()));
    assert!(folded.context.is_none());
}
