use cch::audit::{
    activity_stats, matches_filters, LogEntry, LogQuery, LogRotator, LogTiming, Outcome,
    QueryFilters,
};
use cch::modes::{Decision, PolicyMode};

fn entry(session: &str, tool: &str, rule: &str, timestamp: i64, outcome: Outcome) -> LogEntry {
    LogEntry {
        timestamp,
        event_type: "PreToolUse".to_string(),
        session_id: session.to_string(),
        tool_name: Some(tool.to_string()),
        rules_matched: vec![rule.to_string()],
        outcome,
        timing: LogTiming { processing_ms: 5, rules_evaluated: 3 },
        metadata: None,
        event_details: None,
        response: None,
        raw_event: None,
        rule_evaluations: None,
        mode: None,
        priority: None,
        decision: None,
        governance: None,
        trust_level: None,
    }
}

#[test]
fn test_log_filtering() {
    let query = LogQuery::with_path("cch.log".to_string());

    // Test with an empty file
    let filters = QueryFilters::default();
    let entries = query.query(Vec::new(), &filters);
    assert_eq!(entries.len(), 0);
}

#[test]
fn test_query_round_trip() {
    // Append one record, query with filters it passes: it comes back whole.
    let written = entry("test-session", "Bash", "test-rule", 10, Outcome::Block);
    let records = vec![written];
    let query = LogQuery::with_path("cch.log".to_string());
    let filters = QueryFilters {
        session_id: Some("test-session".to_string()),
        ..Default::default()
    };
    let got = query.query(records, &filters);
    assert_eq!(got.len(), 1);
    assert_eq!(got[0].session_id, "test-session");
    assert_eq!(got[0].tool_name, Some("Bash".to_string()));
    assert_eq!(got[0].rules_matched, vec!["test-rule".to_string()]);
    assert_eq!(got[0].outcome, Outcome::Block);
    assert_eq!(got[0].timestamp, 10);
    assert_eq!(got[0].timing, LogTiming { processing_ms: 5, rules_evaluated: 3 });
}

#[test]
fn test_query_sorts_newest_first() {
    let records = vec![
        entry("s", "Bash", "a", 10, Outcome::Allow),
        entry("s", "Bash", "b", 30, Outcome::Allow),
        entry("s", "Bash", "c", 20, Outcome::Allow),
    ];
    let query = LogQuery::new();
    let got = query.query(records, &QueryFilters::default());
    assert_eq!(got.len(), 3);
    assert_eq!(got[0].timestamp, 30);
    assert_eq!(got[1].timestamp, 20);
    assert_eq!(got[2].timestamp, 10);
}

#[test]
fn test_query_stable_for_equal_timestamps() {
    let records = vec![
        entry("s", "Bash", "first", 10, Outcome::Allow),
        entry("s", "Bash", "second", 10, Outcome::Allow),
        entry("s", "Bash", "third", 10, Outcome::Allow),
    ];
    let got = LogQuery::new().query(records, &QueryFilters::default());
    assert_eq!(got[0].rules_matched[0], "first");
    assert_eq!(got[1].rules_matched[0], "second");
    assert_eq!(got[2].rules_matched[0], "third");
}

#[test]
fn test_query_repeated_calls_agree() {
    let make = || {
        vec![
            entry("s", "Bash", "a", 5, Outcome::Allow),
            entry("s", "Edit", "b", 9, Outcome::Inject),
            entry("s", "Bash", "c", 7, Outcome::Block),
        ]
    };
    let q = LogQuery::new();
    let first = q.query(make(), &QueryFilters::default());
    let second = q.query(make(), &QueryFilters::default());
    assert_eq!(first.len(), 3);
    assert_eq!(second.len(), 3);
    for i in 0..3 {
        assert_eq!(first[i].timestamp, second[i].timestamp);
        assert_eq!(first[i].rules_matched, second[i].rules_matched);
    }
}

#[test]
fn test_query_limit_truncates_after_sorting() {
    let records = vec![
        entry("s", "Bash", "old", 1, Outcome::Allow),
        entry("s", "Bash", "new", 100, Outcome::Allow),
        entry("s", "Bash", "mid", 50, Outcome::Allow),
    ];
    let filters = QueryFilters { limit: Some(2), ..Default::default() };
    let got = LogQuery::new().query(records, &filters);
    assert_eq!(got.len(), 2);
    assert_eq!(got[0].timestamp, 100);
    assert_eq!(got[1].timestamp, 50);
}

#[test]
fn test_filters_each_field() {
    let mut e = entry("sess-1", "Bash", "rule-a", 10, Outcome::Block);
    e.mode = Some(PolicyMode::Enforce);
    e.decision = Some(Decision::Blocked);

    let pass = QueryFilters {
        session_id: Some("sess-1".to_string()),
        tool_name: Some("Bash".to_string()),
        rule_name: Some("rule-a".to_string()),
        outcome: Some(Outcome::Block),
        since: Some(5),
        until: Some(15),
        mode: Some(PolicyMode::Enforce),
        decision: Some(Decision::Blocked),
        limit: None,
    };
    assert!(matches_filters(&e, &pass));

    let mut f = pass.clone();
    f.session_id = Some("other".to_string());
    assert!(!matches_filters(&e, &f));

    let mut f = pass.clone();
    f.tool_name = Some("Edit".to_string());
    assert!(!matches_filters(&e, &f));

    let mut f = pass.clone();
    f.rule_name = Some("rule-b".to_string());
    assert!(!matches_filters(&e, &f));

    let mut f = pass.clone();
    f.outcome = Some(Outcome::Allow);
    assert!(!matches_filters(&e, &f));

    let mut f = pass.clone();
    f.since = Some(11);
    assert!(!matches_filters(&e, &f));

    let mut f = pass.clone();
    f.until = Some(9);
    assert!(!matches_filters(&e, &f));

    let mut f = pass.clone();
    f.mode = Some(PolicyMode::Warn);
    assert!(!matches_filters(&e, &f));

    let mut f = pass;
    f.decision = Some(Decision::Allowed);
    assert!(!matches_filters(&e, &f));
}

#[test]
fn test_log_rotator_schedule() {
    let rotator = LogRotator::new(1024, 5);
    assert!(!rotator.rotation_needed(1023));
    assert!(rotator.rotation_needed(1024));

    let renames = rotator.rotation_renames("cch.log");
    assert_eq!(renames.len(), 5);
    assert_eq!(renames[0].0, "cch.log.4");
    assert_eq!(renames[0].1, "cch.log.5");
    assert_eq!(renames[1].0, "cch.log.3");
    assert_eq!(renames[1].1, "cch.log.4");
    assert_eq!(renames[2].0, "cch.log.2");
    assert_eq!(renames[2].1, "cch.log.3");
    assert_eq!(renames[3].0, "cch.log.1");
    assert_eq!(renames[3].1, "cch.log.2");
    assert_eq!(renames[4].0, "cch.log");
    assert_eq!(renames[4].1, "cch.log.1");
}

#[test]
fn test_log_rotator_default() {
    let rotator = LogRotator::default();
    assert_eq!(rotator.max_size_bytes, 10 * 1024 * 1024);
    assert_eq!(rotator.max_files, 5);
}

#[test]
fn test_activity_stats_counts() {
    let mut a = entry("s", "Bash", "r", 40, Outcome::Block);
    a.decision = Some(Decision::Blocked);
    let mut b = entry("s", "Bash", "r", 30, Outcome::Allow);
    b.decision = Some(Decision::Allowed);
    let mut c = entry("s", "Bash", "r", 20, Outcome::Inject);
    c.decision = Some(Decision::Warned);
    let mut d = entry("s", "Bash", "r", 10, Outcome::Allow);
    d.decision = Some(Decision::Audited);
    let mut e = entry("s", "Bash", "r", 5, Outcome::Block);
    e.decision = Some(Decision::Blocked);

    let entries = vec![a, b, c, d, e];
    let stats = activity_stats(&entries);
    assert_eq!(stats.total_triggers, 5);
    assert_eq!(stats.blocked, 2);
    assert_eq!(stats.allowed, 1);
    assert_eq!(stats.warned, 1);
    assert_eq!(stats.audited, 1);
    assert_eq!(stats.last_trigger, Some(40));
}

#[test]
fn test_activity_stats_empty() {
    let stats = activity_stats(&Vec::new());
    assert_eq!(stats.total_triggers, 0);
    assert_eq!(stats.last_trigger, None);
}

#[test]
fn test_log_query_paths() {
    let q = LogQuery::new();
    assert_eq!(q.log_path, ".cch/logs/cch.log");
    let q = LogQuery::with_path("/tmp/other.log".to_string());
    assert_eq!(q.log_path, "/tmp/other.log");
}
