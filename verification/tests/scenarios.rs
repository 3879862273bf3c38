use cch::config::{Config, DebugConfig, Settings};
use cch::events::{Event, EventType, ToolInput};
use cch::executor::{
    continue_after_file, plan_rule_action, resolve_validator_outcome, ActionStep,
    ValidatorOutcome,
};
use cch::hooks::{build_log_entry, determine_decision, evaluate_matches, fold_responses};
use cch::matcher::{matches_rule, matches_rule_with_debug};
use cch::modes::{Decision, PolicyMode};
use cch::rules::{Actions, Matchers, Rule};
use cch::sim::{build_event, scope_name, uuid_simple, Scope, SimEventType};

fn empty_tool_input() -> ToolInput {
    ToolInput {
        command: None,
        file_path: None,
        new_content: None,
        pattern: None,
        path: None,
        source: None,
        reason: None,
        transcript_path: None,
        cwd: None,
    }
}

fn bash_event(command: &str) -> Event {
    let mut ti = empty_tool_input();
    ti.command = Some(command.to_string());
    Event {
        event_type: EventType::PreToolUse,
        tool_name: Some("Bash".to_string()),
        tool_input: Some(ti),
        session_id: "scenario-session".to_string(),
        timestamp: 42,
        user_id: None,
        transcript_path: None,
        cwd: None,
        permission_mode: None,
        tool_use_id: None,
    }
}

fn push_block_rule() -> Rule {
    Rule {
        name: "block-force-push".to_string(),
        description: Some("Prevent force push".to_string()),
        matchers: Matchers {
            tools: Some(vec!["Bash".to_string()]),
            command_match: Some("git push.*(--force|-f)".to_string()),
            extensions: None,
            directories: None,
            operations: None,
        },
        actions: Actions { block: Some(true), inject: None, run: None, block_if_match: None },
        mode: None,
        priority: None,
        governance: None,
        metadata: None,
    }
}

/// Scenario: a Bash force-push matching a blocking rule is blocked, and the
/// reason references the rule's name.
#[test]
fn scenario_force_push_blocked() {
    let event = bash_event("git push --force origin main");
    let rule = push_block_rule();
    let settings = Settings::default();

    assert!(matches_rule(&event, &rule));
    let step = plan_rule_action(&event, &rule, &settings);
    let response = match step {
        ActionStep::Done(r) => r,
        _ => panic!("a blocking rule needs no outside step"),
    };
    assert!(!response.continue_);
    let reason = response.reason.clone().unwrap();
    assert!(reason.contains("block-force-push"));

    let finl = fold_responses(vec![response]);
    assert!(!finl.continue_);
    assert_eq!(determine_decision(&finl, rule.effective_mode()), Decision::Blocked);
}

/// Scenario: the same rule leaves an ordinary command alone - allowed, no
/// context.
#[test]
fn scenario_git_status_allowed() {
    let event = bash_event("git status");
    let rule = push_block_rule();

    assert!(!matches_rule(&event, &rule));
    let finl = fold_responses(Vec::new());
    assert!(finl.continue_);
    assert!(finl.context.is_none());
    assert!(finl.reason.is_none());
}

/// Scenario: with no configuration file anywhere, the empty configuration
/// allows any event - the system is fail-open by construction.
#[test]
fn scenario_no_config_allows_everything() {
    let config = Config::default();
    assert!(config.settings.fail_open);
    let event = bash_event("git push --force");
    let debug = DebugConfig::new(false, config.settings.debug_logs);

    let rules = config.enabled_rules();
    assert!(rules.is_empty());
    let (matched, evals) = evaluate_matches(&event, rules, &debug);
    assert!(matched.is_empty());
    assert!(evals.is_empty());

    let finl = fold_responses(Vec::new());
    assert!(finl.continue_);
    assert!(finl.context.is_none());
}

/// Scenario: a validator that outlives its timeout resolves to a plain
/// allow under `fail_open`, never to a block or a hang.
#[test]
fn scenario_validator_timeout_fail_open() {
    let step = resolve_validator_outcome(
        ".cch/validators/slow.sh",
        PolicyMode::Enforce,
        true,
        ValidatorOutcome::TimedOut,
    );
    match step {
        ActionStep::Done(r) => {
            assert!(r.continue_);
            assert!(r.context.is_none());
            assert!(r.reason.is_none());
        },
        _ => panic!("fail-open timeout must resolve to a plain allow"),
    }
}

#[test]
fn validator_timeout_fail_closed_is_fatal() {
    let step = resolve_validator_outcome(
        ".cch/validators/slow.sh",
        PolicyMode::Enforce,
        false,
        ValidatorOutcome::TimedOut,
    );
    match step {
        ActionStep::Fatal(e) => assert_eq!(e.message(), "Script timed out"),
        _ => panic!("fail-closed timeout must be fatal"),
    }
}

#[test]
fn validator_success_with_output_injects_trimmed() {
    let step = resolve_validator_outcome(
        "scan.sh",
        PolicyMode::Enforce,
        true,
        ValidatorOutcome::Completed {
            exit_code: 0,
            stdout: "  remember the style guide \n".to_string(),
            stderr: String::new(),
        },
    );
    match step {
        ActionStep::Done(r) => {
            assert!(r.continue_);
            assert_eq!(r.context.unwrap(), "remember the style guide");
        },
        _ => panic!("exit 0 is never an outside step"),
    }
}

#[test]
fn validator_success_empty_output_allows() {
    let step = resolve_validator_outcome(
        "scan.sh",
        PolicyMode::Enforce,
        true,
        ValidatorOutcome::Completed {
            exit_code: 0,
            stdout: "  \n ".to_string(),
            stderr: String::new(),
        },
    );
    match step {
        ActionStep::Done(r) => {
            assert!(r.continue_);
            assert!(r.context.is_none());
        },
        _ => panic!("exit 0 is never an outside step"),
    }
}

#[test]
fn validator_failure_blocks_with_stderr() {
    let step = resolve_validator_outcome(
        "scan.sh",
        PolicyMode::Enforce,
        true,
        ValidatorOutcome::Completed {
            exit_code: 1,
            stdout: String::new(),
            stderr: "secrets detected\n".to_string(),
        },
    );
    match step {
        ActionStep::Done(r) => {
            assert!(!r.continue_);
            assert_eq!(r.reason.unwrap(), "Blocked by validator script: secrets detected");
        },
        _ => panic!("a completed script is never an outside step"),
    }
}

#[test]
fn validator_failure_empty_stderr_names_script() {
    let step = resolve_validator_outcome(
        "scan.sh",
        PolicyMode::Enforce,
        true,
        ValidatorOutcome::Completed {
            exit_code: 2,
            stdout: String::new(),
            stderr: String::new(),
        },
    );
    match step {
        ActionStep::Done(r) => {
            assert!(!r.continue_);
            assert_eq!(r.reason.unwrap(), "Blocked by validator script 'scan.sh'");
        },
        _ => panic!("a completed script is never an outside step"),
    }
}

#[test]
fn validator_block_downgraded_in_warn_mode() {
    let step = resolve_validator_outcome(
        "scan.sh",
        PolicyMode::Warn,
        true,
        ValidatorOutcome::Completed {
            exit_code: 1,
            stdout: String::new(),
            stderr: "no".to_string(),
        },
    );
    match step {
        ActionStep::Done(r) => {
            assert!(r.continue_);
            let ctx = r.context.unwrap();
            assert!(ctx.starts_with("[WARNING]"));
            assert!(ctx.contains("would block this operation"));
        },
        _ => panic!("a completed script is never an outside step"),
    }
}

/// A rule in warn mode whose action would block injects a warning instead:
/// the response continues and the context names the would-be block.
#[test]
fn warn_mode_block_becomes_warning() {
    let event = bash_event("git push --force");
    let mut rule = push_block_rule();
    rule.mode = Some(PolicyMode::Warn);
    let step = plan_rule_action(&event, &rule, &Settings::default());
    match step {
        ActionStep::Done(r) => {
            assert!(r.continue_);
            let ctx = r.context.unwrap();
            assert!(ctx.starts_with("[WARNING]"));
            assert!(ctx.contains("would block"));
            assert!(ctx.contains("block-force-push"));
        },
        _ => panic!("a blocking rule needs no outside step"),
    }
}

/// A rule in audit mode contributes a plain allow whatever its action.
#[test]
fn audit_mode_is_plain_allow() {
    let event = bash_event("git push --force");
    let mut rule = push_block_rule();
    rule.mode = Some(PolicyMode::Audit);
    let step = plan_rule_action(&event, &rule, &Settings::default());
    match step {
        ActionStep::Done(r) => {
            assert!(r.continue_);
            assert!(r.context.is_none());
            assert!(r.reason.is_none());
        },
        _ => panic!("audit mode performs no outside step"),
    }
}

#[test]
fn inject_action_asks_for_the_file_then_injects() {
    let event = bash_event("anything");
    let mut rule = push_block_rule();
    rule.matchers.command_match = None;
    rule.actions = Actions {
        block: None,
        block_if_match: None,
        inject: Some(".cch/context/standards.md".to_string()),
        run: None,
    };
    let step = plan_rule_action(&event, &rule, &Settings::default());
    let path = match step {
        ActionStep::NeedFile { path } => path,
        _ => panic!("an inject action needs the file first"),
    };
    assert_eq!(path, ".cch/context/standards.md");

    let step = continue_after_file(&rule, &Settings::default(), Some("the rules".to_string()));
    match step {
        ActionStep::Done(r) => {
            assert!(r.continue_);
            assert_eq!(r.context.unwrap(), "the rules");
        },
        _ => panic!("a read file decides the rule"),
    }

    // An unreadable file is non-fatal: with no validator configured it
    // falls through to a plain allow.
    let step = continue_after_file(&rule, &Settings::default(), None);
    match step {
        ActionStep::Done(r) => {
            assert!(r.continue_);
            assert!(r.context.is_none());
        },
        _ => panic!("an unreadable file without a validator allows"),
    }
}

#[test]
fn run_action_uses_rule_timeout_over_default() {
    let event = bash_event("anything");
    let mut rule = push_block_rule();
    rule.matchers.command_match = None;
    rule.actions = Actions {
        block: None,
        block_if_match: None,
        inject: None,
        run: Some(cch::rules::RunAction::Simple("v.sh".to_string())),
    };
    rule.metadata = Some(cch::rules::RuleMetadata { priority: 0, timeout: 30, enabled: true });
    let step = plan_rule_action(&event, &rule, &Settings::default());
    match step {
        ActionStep::NeedScript { script, timeout_secs } => {
            assert_eq!(script, "v.sh");
            assert_eq!(timeout_secs, 30);
        },
        _ => panic!("a run action needs the script run"),
    }

    rule.metadata = None;
    let step = plan_rule_action(&event, &rule, &Settings::default());
    match step {
        ActionStep::NeedScript { timeout_secs, .. } => assert_eq!(timeout_secs, 5),
        _ => panic!("a run action needs the script run"),
    }
}

#[test]
fn block_if_match_fires_on_content() {
    let mut ti = empty_tool_input();
    ti.new_content = Some("password = \"hunter2\"".to_string());
    let mut event = bash_event("x");
    event.tool_name = Some("Edit".to_string());
    event.tool_input = Some(ti);

    let mut rule = push_block_rule();
    rule.matchers = Matchers {
        tools: None,
        extensions: None,
        directories: None,
        operations: None,
        command_match: None,
    };
    rule.actions = Actions {
        block: None,
        block_if_match: Some("password".to_string()),
        inject: None,
        run: None,
    };
    let step = plan_rule_action(&event, &rule, &Settings::default());
    match step {
        ActionStep::Done(r) => {
            assert!(!r.continue_);
            assert!(r.reason.unwrap().contains("matches pattern 'password'"));
        },
        _ => panic!("a conditional block needs no outside step"),
    }
}

#[test]
fn malformed_pattern_never_fires() {
    let event = bash_event("git push --force");
    let mut rule = push_block_rule();
    rule.matchers.command_match = Some("(((".to_string());
    assert!(!matches_rule(&event, &rule));
}

#[test]
fn missing_field_fails_present_criterion() {
    // Closed world: a present criterion whose event field is absent fails.
    let mut event = bash_event("x");
    event.tool_input = None;
    let rule = push_block_rule();
    assert!(!matches_rule(&event, &rule));
}

#[test]
fn extension_matching_uses_normalized_extension() {
    let mut ti = empty_tool_input();
    ti.file_path = Some("src/lib.rs".to_string());
    let mut event = bash_event("x");
    event.tool_name = Some("Edit".to_string());
    event.tool_input = Some(ti);

    let mut rule = push_block_rule();
    rule.matchers = Matchers {
        tools: None,
        extensions: Some(vec![".rs".to_string()]),
        directories: None,
        operations: None,
        command_match: None,
    };
    assert!(matches_rule(&event, &rule));

    rule.matchers.extensions = Some(vec![".py".to_string()]);
    assert!(!matches_rule(&event, &rule));
}

#[test]
fn directory_matching_strips_glob_suffixes() {
    let mut ti = empty_tool_input();
    ti.file_path = Some("src/deep/module.rs".to_string());
    let mut event = bash_event("x");
    event.tool_name = Some("Edit".to_string());
    event.tool_input = Some(ti);

    let mut rule = push_block_rule();
    rule.matchers = Matchers {
        tools: None,
        extensions: None,
        directories: Some(vec!["src/**".to_string()]),
        operations: None,
        command_match: None,
    };
    assert!(matches_rule(&event, &rule));

    rule.matchers.directories = Some(vec!["tests/**".to_string()]);
    assert!(!matches_rule(&event, &rule));
}

#[test]
fn operations_matching_uses_event_type_name() {
    let event = bash_event("x");
    let mut rule = push_block_rule();
    rule.matchers = Matchers {
        tools: None,
        extensions: None,
        directories: None,
        operations: Some(vec!["PreToolUse".to_string()]),
        command_match: None,
    };
    assert!(matches_rule(&event, &rule));

    rule.matchers.operations = Some(vec!["SessionStart".to_string()]);
    assert!(!matches_rule(&event, &rule));
}

#[test]
fn debug_matcher_reports_each_criterion() {
    let event = bash_event("git push --force");
    let rule = push_block_rule();
    let (matched, results) = matches_rule_with_debug(&event, &rule);
    assert!(matched);
    let results = results.unwrap();
    assert_eq!(results.tools_matched, Some(true));
    assert_eq!(results.command_match_matched, Some(true));
    assert_eq!(results.extensions_matched, None);
    assert_eq!(results.directories_matched, None);
    assert_eq!(results.operations_matched, None);
}

#[test]
fn log_entry_records_the_evaluation() {
    let event = bash_event("git push --force");
    let config = Config {
        version: "1.0".to_string(),
        rules: vec![push_block_rule()],
        settings: Settings::default(),
    };
    let debug = DebugConfig::new(false, false);
    let (matched, evals) = evaluate_matches(&event, config.enabled_rules(), &debug);
    assert_eq!(matched.len(), 1);
    let response = cch::response::Response::block("Blocked by rule 'block-force-push'");
    let entry = build_log_entry(&event, &matched, &response, 3, 1, &debug, None, evals);
    assert_eq!(entry.event_type, "PreToolUse");
    assert_eq!(entry.session_id, "scenario-session");
    assert_eq!(entry.rules_matched, vec!["block-force-push".to_string()]);
    assert_eq!(entry.outcome, cch::audit::Outcome::Block);
    assert_eq!(entry.mode, Some(PolicyMode::Enforce));
    assert_eq!(entry.priority, Some(0));
    assert_eq!(entry.decision, Some(Decision::Blocked));
    assert!(entry.raw_event.is_none());
    assert!(entry.rule_evaluations.is_none());
    assert_eq!(entry.timestamp, 42);
}

#[test]
fn sim_event_type_parsing() {
    assert_eq!(SimEventType::from_str("PreToolUse"), Some(SimEventType::PreToolUse));
    assert_eq!(SimEventType::from_str("pre"), Some(SimEventType::PreToolUse));
    assert_eq!(SimEventType::from_str("post-tool-use"), Some(SimEventType::PostToolUse));
    assert_eq!(SimEventType::from_str("Session"), Some(SimEventType::SessionStart));
    assert_eq!(SimEventType::from_str("perm"), Some(SimEventType::PermissionRequest));
    assert_eq!(SimEventType::from_str("bogus"), None);
}

#[test]
fn sim_build_event_defaults_to_bash() {
    let event = build_event(SimEventType::PreToolUse, None, Some("ls".to_string()), None);
    assert_eq!(event.event_type, EventType::PreToolUse);
    assert_eq!(event.tool_name, Some("Bash".to_string()));
    assert!(event.session_id.starts_with("debug-"));
    let ti = event.tool_input.unwrap();
    assert_eq!(ti.command, Some("ls".to_string()));
}

#[test]
fn sim_scope_names() {
    assert_eq!(scope_name(Scope::Project), "project");
    assert_eq!(scope_name(Scope::Global), "global");
}

#[test]
fn sim_uuid_is_hex() {
    let id = uuid_simple();
    assert!(!id.is_empty());
    assert!(id.chars().all(|c| c.is_ascii_hexdigit() && !c.is_ascii_uppercase()));
}
