//! The action executor, as a state machine over plain values.
//!
//! The engine decides which action governs a matched rule and what its
//! outcome means; the caller that owns I/O performs the two outside steps
//! (reading a context file, running a validator script) and hands their
//! results back.  A rule's contribution is decided by the first applicable
//! action in the order `block`, `block_if_match`, `inject`, `run`, under
//! the rule's governance mode: enforce executes it literally, warn rewrites
//! every would-be block into an injected warning, audit contributes a plain
//! allow.

use vstd::prelude::*;
use vstd::string::*;
use crate::config::Settings;
use crate::modes::PolicyMode;
use crate::pattern::{match_pattern, regex_match, regex_ok};
use crate::response::{allow_view, block_view, inject_view, Response};
use crate::rules::{Actions, Rule, RuleView};
use crate::text;

verus! {

/// How one validator invocation ended: the terminal states of the
/// subprocess lifecycle.
#[derive(Debug)]
pub enum ValidatorOutcome {
    /// The script ran to completion within the timeout.
    Completed { exit_code: i32, stdout: String, stderr: String },
    /// The script did not finish within the wall-clock timeout.
    TimedOut,
    /// The script could not be started.
    SpawnFailed,
    /// Waiting for the script failed.
    WaitFailed,
}

/// A validator failure that aborts the event when `fail_open` is false.
#[derive(Debug)]
pub enum ExecError {
    /// The script could not be started.
    SpawnFailed { script: String },
    /// Waiting for the script failed.
    WaitFailed { script: String },
    /// The script exceeded its wall-clock timeout.
    TimedOut { script: String },
}

/// The message of a validator failure.
pub open spec fn spec_exec_error_message(e: ExecError) -> Seq<char> {
    match e {
        ExecError::SpawnFailed { script } => "Failed to spawn validator script '"@ + script@
            + "'"@,
        ExecError::WaitFailed { script } => "Validator script '"@ + script@ + "' failed"@,
        ExecError::TimedOut { script } => "Script timed out"@,
    }
}

impl ExecError {
    /// A human-readable description of the failure.
    pub fn message(&self) -> (r: String)
        ensures
            r@ == spec_exec_error_message(*self),
    {
        match self {
            ExecError::SpawnFailed { script } => {
                let mut m = String::new();
                m.append("Failed to spawn validator script '");
                m.append(script.as_str());
                m.append("'");
                proof {
                    assert(m@ =~= spec_exec_error_message(*self));
                }
                m
            },
            ExecError::WaitFailed { script } => {
                let mut m = String::new();
                m.append("Validator script '");
                m.append(script.as_str());
                m.append("' failed");
                proof {
                    assert(m@ =~= spec_exec_error_message(*self));
                }
                m
            },
            ExecError::TimedOut { script } => {
                let m = String::from_str("Script timed out");
                proof {
                    assert(m@ =~= spec_exec_error_message(*self));
                }
                m
            },
        }
    }
}

/// One step of the per-rule action protocol: either the rule's contribution
/// is decided, or the event is aborted, or an outside step is needed first.
#[derive(Debug)]
pub enum ActionStep {
    /// The rule's response is decided.
    Done(Response),
    /// The event fails: a validator failed and `fail_open` is false.
    Fatal(ExecError),
    /// The context file at `path` must be read; resume with its content.
    NeedFile { path: String },
    /// The script must be run with the event on its standard input and the
    /// timeout in seconds; resume with its outcome.
    NeedScript { script: String, timeout_secs: u32 },
}

/// The block reason for an unconditional block.
pub open spec fn spec_block_reason(rv: RuleView) -> Seq<char> {
    "Blocked by rule '"@ + rv.name@ + "': "@ + (match rv.description {
        Some(d) => d@,
        None => "No description"@,
    })
}

/// The block reason for a conditional (content-matched) block.
pub open spec fn spec_cond_block_reason(rv: RuleView) -> Seq<char> {
    "Content blocked by rule '"@ + rv.name@ + "': matches pattern '"@ + (
    match rv.actions.block_if_match {
        Some(p) => p@,
        None => Seq::empty(),
    }) + "'"@
}

/// The warning injected in warn mode for a would-be unconditional block.
pub open spec fn spec_warn_block_message(rv: RuleView) -> Seq<char> {
    "[WARNING] Rule '"@ + rv.name@ + "' would block this operation: "@ + (match rv.description {
        Some(d) => d@,
        None => "No description"@,
    }) + "\nThis rule is in 'warn' mode - operation will proceed."@
}

/// The warning injected in warn mode for a would-be conditional block.
pub open spec fn spec_warn_cond_message(rv: RuleView) -> Seq<char> {
    "[WARNING] Rule '"@ + rv.name@ + "' would block this content (matches pattern '"@ + (
    match rv.actions.block_if_match {
        Some(p) => p@,
        None => Seq::empty(),
    }) + "').\nThis rule is in 'warn' mode - operation will proceed."@
}

/// The block reason reported for a failing validator: the script's standard
/// error, trimmed, when it said anything; else a generic message naming the
/// script.
pub open spec fn spec_validator_block_reason(script: Seq<char>, stderr: Seq<char>) -> Seq<char> {
    if stderr.len() == 0 {
        "Blocked by validator script '"@ + script + "'"@
    } else {
        "Blocked by validator script: "@ + text::trim_seq(stderr)
    }
}

/// The warning injected in warn mode for a validator that would block.
pub open spec fn spec_warn_validator_message(script: Seq<char>, reason: Seq<char>) -> Seq<char> {
    "[WARNING] Validator script '"@ + script + "' would block this operation: "@ + reason
        + "\nThis rule is in 'warn' mode - operation will proceed."@
}

fn description_or_default(rule: &Rule) -> (r: &str)
    ensures
        r@ == (match rule@.description {
            Some(d) => d@,
            None => "No description"@,
        }),
{
    match &rule.description {
        Some(d) => d.as_str(),
        None => "No description",
    }
}

fn block_reason(rule: &Rule) -> (r: String)
    ensures
        r@ == spec_block_reason(rule@),
{
    let mut m = String::new();
    m.append("Blocked by rule '");
    m.append(rule.name.as_str());
    m.append("': ");
    m.append(description_or_default(rule));
    proof {
        assert(m@ =~= spec_block_reason(rule@));
    }
    m
}

fn cond_block_reason(rule: &Rule, pattern: &str) -> (r: String)
    requires
        rule@.actions.block_if_match matches Some(p) && p@ == pattern@,
    ensures
        r@ == spec_cond_block_reason(rule@),
{
    let mut m = String::new();
    m.append("Content blocked by rule '");
    m.append(rule.name.as_str());
    m.append("': matches pattern '");
    m.append(pattern);
    m.append("'");
    proof {
        assert(m@ =~= spec_cond_block_reason(rule@));
    }
    m
}

fn warn_block_message(rule: &Rule) -> (r: String)
    ensures
        r@ == spec_warn_block_message(rule@),
{
    let mut m = String::new();
    m.append("[WARNING] Rule '");
    m.append(rule.name.as_str());
    m.append("' would block this operation: ");
    m.append(description_or_default(rule));
    m.append("\nThis rule is in 'warn' mode - operation will proceed.");
    proof {
        assert(m@ =~= spec_warn_block_message(rule@));
    }
    m
}

fn warn_cond_message(rule: &Rule, pattern: &str) -> (r: String)
    requires
        rule@.actions.block_if_match matches Some(p) && p@ == pattern@,
    ensures
        r@ == spec_warn_cond_message(rule@),
{
    let mut m = String::new();
    m.append("[WARNING] Rule '");
    m.append(rule.name.as_str());
    m.append("' would block this content (matches pattern '");
    m.append(pattern);
    m.append("').\nThis rule is in 'warn' mode - operation will proceed.");
    proof {
        assert(m@ =~= spec_warn_cond_message(rule@));
    }
    m
}

/// The new or edited content carried by the event, if any.
pub open spec fn spec_content_of(e: crate::events::Event) -> Option<Seq<char>> {
    match e.tool_input {
        Some(ti) => match ti.new_content {
            Some(c) => Some(c@),
            None => None,
        },
        None => None,
    }
}

/// The conditional block fires: a pattern is configured, the event carries
/// content, the pattern compiles, and it matches the content.
pub open spec fn spec_cond_block_fires(e: crate::events::Event, a: Actions) -> bool {
    match a.block_if_match {
        Some(p) => match spec_content_of(e) {
            Some(c) => regex_ok(p@) && regex_match(p@, c),
            None => false,
        },
        None => false,
    }
}

/// The timeout for a rule's validator: the rule's own, else the configured
/// default.
pub open spec fn spec_script_timeout(rv: RuleView, settings: Settings) -> u32 {
    match rv.metadata {
        Some(m) => m.timeout,
        None => settings.script_timeout,
    }
}

/// What `plan_rule_action` promises, by mode and by the first applicable
/// action.
pub open spec fn spec_plan_ok(
    e: crate::events::Event,
    rv: RuleView,
    settings: Settings,
    r: ActionStep,
) -> bool {
    let a = rv.actions;
    if rv.effective_mode() == PolicyMode::Audit {
        r matches ActionStep::Done(resp) && resp@ == allow_view()
    } else if a.block == Some(true) {
        if rv.effective_mode() == PolicyMode::Enforce {
            r matches ActionStep::Done(resp) && resp@ == block_view(spec_block_reason(rv))
        } else {
            r matches ActionStep::Done(resp) && resp@ == inject_view(spec_warn_block_message(rv))
        }
    } else if spec_cond_block_fires(e, a) {
        if rv.effective_mode() == PolicyMode::Enforce {
            r matches ActionStep::Done(resp) && resp@ == block_view(spec_cond_block_reason(rv))
        } else {
            r matches ActionStep::Done(resp) && resp@ == inject_view(spec_warn_cond_message(rv))
        }
    } else if a.inject is Some {
        r matches ActionStep::NeedFile { path } && path@ == a.inject->0@
    } else if a.run is Some {
        r matches ActionStep::NeedScript { script, timeout_secs } && script@
            == a.run->0.spec_script_path()@ && timeout_secs == spec_script_timeout(rv, settings)
    } else {
        r matches ActionStep::Done(resp) && resp@ == allow_view()
    }
}

/// Decide a matched rule's first applicable action under its mode.  Blocks
/// and conditional blocks are decided here; context injection and validator
/// runs are handed back as the outside steps they require.
pub fn plan_rule_action(event: &crate::events::Event, rule: &Rule, settings: &Settings) -> (r:
    ActionStep)
    ensures
        spec_plan_ok(*event, rule@, *settings, r),
{
    let mode = rule.effective_mode();
    if matches!(mode, PolicyMode::Audit) {
        return ActionStep::Done(Response::allow());
    }
    if let Some(true) = rule.actions.block {
        if matches!(mode, PolicyMode::Enforce) {
            let reason = block_reason(rule);
            return ActionStep::Done(Response::block(reason.as_str()));
        }
        let warning = warn_block_message(rule);
        return ActionStep::Done(Response::inject(warning.as_str()));
    }
    let cond_fires = match &rule.actions.block_if_match {
        Some(p) => match &event.tool_input {
            Some(ti) => match &ti.new_content {
                Some(c) => match match_pattern(p.as_str(), c.as_str()) {
                    Some(b) => b,
                    None => false,
                },
                None => false,
            },
            None => false,
        },
        None => false,
    };
    if cond_fires {
        let pattern_owned = match &rule.actions.block_if_match {
            Some(p) => p.clone(),
            None => String::new(),
        };
        if matches!(mode, PolicyMode::Enforce) {
            let reason = cond_block_reason(rule, pattern_owned.as_str());
            return ActionStep::Done(Response::block(reason.as_str()));
        }
        let warning = warn_cond_message(rule, pattern_owned.as_str());
        return ActionStep::Done(Response::inject(warning.as_str()));
    }
    if let Some(path) = &rule.actions.inject {
        return ActionStep::NeedFile { path: path.clone() };
    }
    match &rule.actions.run {
        Some(run) => {
            let script = run.script_path().to_owned();
            let timeout_secs = match rule.metadata {
                Some(m) => m.timeout,
                None => settings.script_timeout,
            };
            ActionStep::NeedScript { script, timeout_secs }
        },
        None => ActionStep::Done(Response::allow()),
    }
}

/// Resume a rule whose context file was read.  A readable file is injected
/// as it stands; an unreadable one is non-fatal and falls through to the
/// rule's validator action, if any, else to a plain allow.
pub fn continue_after_file(rule: &Rule, settings: &Settings, content: Option<String>) -> (r:
    ActionStep)
    ensures
        content matches Some(c) ==> (r matches ActionStep::Done(resp) && resp@ == inject_view(
            c@,
        )),
        (content is None && rule@.actions.run is Some) ==> (r matches ActionStep::NeedScript {
            script,
            timeout_secs,
        } && script@ == rule@.actions.run->0.spec_script_path()@ && timeout_secs
            == spec_script_timeout(rule@, *settings)),
        (content is None && rule@.actions.run is None) ==> (r matches ActionStep::Done(resp)
            && resp@ == allow_view()),
{
    match content {
        Some(c) => ActionStep::Done(Response::inject(c.as_str())),
        None => match &rule.actions.run {
            Some(run) => {
                let script = run.script_path().to_owned();
                let timeout_secs = match rule.metadata {
                    Some(m) => m.timeout,
                    None => settings.script_timeout,
                };
                ActionStep::NeedScript { script, timeout_secs }
            },
            None => ActionStep::Done(Response::allow()),
        },
    }
}

/// What `resolve_validator_outcome` promises for every possible outcome.
pub open spec fn spec_validator_resolution(
    script: Seq<char>,
    mode: PolicyMode,
    fail_open: bool,
    outcome: ValidatorOutcome,
    r: ActionStep,
) -> bool {
    match outcome {
        ValidatorOutcome::Completed { exit_code, stdout, stderr } => {
            if exit_code == 0 {
                if text::trim_seq(stdout@).len() == 0 {
                    r matches ActionStep::Done(resp) && resp@ == allow_view()
                } else {
                    r matches ActionStep::Done(resp) && resp@ == inject_view(
                        text::trim_seq(stdout@),
                    )
                }
            } else {
                let reason = spec_validator_block_reason(script, stderr@);
                if mode == PolicyMode::Enforce {
                    r matches ActionStep::Done(resp) && resp@ == block_view(reason)
                } else {
                    r matches ActionStep::Done(resp) && resp@ == inject_view(
                        spec_warn_validator_message(script, reason),
                    )
                }
            }
        },
        ValidatorOutcome::TimedOut => {
            if fail_open {
                r matches ActionStep::Done(resp) && resp@ == allow_view()
            } else {
                r matches ActionStep::Fatal(e) && e matches ExecError::TimedOut { script: s } && s@
                    == script
            }
        },
        ValidatorOutcome::SpawnFailed => {
            if fail_open {
                r matches ActionStep::Done(resp) && resp@ == allow_view()
            } else {
                r matches ActionStep::Fatal(e) && e matches ExecError::SpawnFailed { script: s }
                    && s@ == script
            }
        },
        ValidatorOutcome::WaitFailed => {
            if fail_open {
                r matches ActionStep::Done(resp) && resp@ == allow_view()
            } else {
                r matches ActionStep::Fatal(e) && e matches ExecError::WaitFailed { script: s }
                    && s@ == script
            }
        },
    }
}

/// Interpret how a validator invocation ended.  Exit code 0 is success:
/// non-empty trimmed output becomes injected context, else a plain allow.
/// Any other exit code is a block, downgraded to an injected warning in
/// warn mode.  Spawn failure, wait failure and timeout are treated
/// identically: allow when `fail_open` holds, else fatal.
pub fn resolve_validator_outcome(
    script: &str,
    mode: PolicyMode,
    fail_open: bool,
    outcome: ValidatorOutcome,
) -> (r: ActionStep)
    requires
        mode != PolicyMode::Audit,
    ensures
        spec_validator_resolution(script@, mode, fail_open, outcome, r),
{
    match outcome {
        ValidatorOutcome::Completed { exit_code, stdout, stderr } => {
            if exit_code == 0 {
                let trimmed = text::trim_ascii(stdout.as_str());
                if trimmed.as_str().unicode_len() == 0 {
                    proof {
                        assert(text::trim_seq(stdout@).len() == 0);
                    }
                    ActionStep::Done(Response::allow())
                } else {
                    ActionStep::Done(Response::inject(trimmed.as_str()))
                }
            } else {
                let reason = if stderr.as_str().unicode_len() == 0 {
                    let mut m = String::new();
                    m.append("Blocked by validator script '");
                    m.append(script);
                    m.append("'");
                    proof {
                        assert(m@ =~= spec_validator_block_reason(script@, stderr@));
                    }
                    m
                } else {
                    let trimmed = text::trim_ascii(stderr.as_str());
                    let mut m = String::new();
                    m.append("Blocked by validator script: ");
                    m.append(trimmed.as_str());
                    proof {
                        assert(m@ =~= spec_validator_block_reason(script@, stderr@));
                    }
                    m
                };
                if matches!(mode, PolicyMode::Enforce) {
                    ActionStep::Done(Response::block(reason.as_str()))
                } else {
                    let mut w = String::new();
                    w.append("[WARNING] Validator script '");
                    w.append(script);
                    w.append("' would block this operation: ");
                    w.append(reason.as_str());
                    w.append("\nThis rule is in 'warn' mode - operation will proceed.");
                    proof {
                        assert(w@ =~= spec_warn_validator_message(
                            script@,
                            spec_validator_block_reason(script@, stderr@),
                        ));
                    }
                    ActionStep::Done(Response::inject(w.as_str()))
                }
            }
        },
        ValidatorOutcome::TimedOut => {
            if fail_open {
                ActionStep::Done(Response::allow())
            } else {
                ActionStep::Fatal(ExecError::TimedOut { script: script.to_owned() })
            }
        },
        ValidatorOutcome::SpawnFailed => {
            if fail_open {
                ActionStep::Done(Response::allow())
            } else {
                ActionStep::Fatal(ExecError::SpawnFailed { script: script.to_owned() })
            }
        },
        ValidatorOutcome::WaitFailed => {
            if fail_open {
                ActionStep::Done(Response::allow())
            } else {
                ActionStep::Fatal(ExecError::WaitFailed { script: script.to_owned() })
            }
        },
    }
}

/// In warn mode a validator whose exit code would block never blocks: its
/// contribution allows the operation and injects a non-empty warning that
/// opens with the marker naming the would-be block.
pub proof fn lemma_warn_validator_never_blocks(
    script: Seq<char>,
    fail_open: bool,
    outcome: ValidatorOutcome,
    r: ActionStep,
)
    requires
        outcome matches ValidatorOutcome::Completed { exit_code, .. } && exit_code != 0,
        spec_validator_resolution(script, PolicyMode::Warn, fail_open, outcome, r),
    ensures
        r is Done,
        r->Done_0@.continue_,
        r->Done_0@.context is Some,
        r->Done_0@.context->0.len() > 0,
        r->Done_0@.context->0.subrange(0, 9) == "[WARNING]"@,
{
    reveal_strlit("[WARNING] Validator script '");
    reveal_strlit("[WARNING]");
    let stderr = outcome->Completed_stderr;
    let reason = spec_validator_block_reason(script, stderr@);
    assert(r->Done_0@.context == Some(spec_warn_validator_message(script, reason)));
    assert(spec_warn_validator_message(script, reason).subrange(0, 9) =~= "[WARNING]"@);
}

/// In audit mode a matched rule's contribution is always a plain allow,
/// whatever its configured action: this is the whole of the mode.
pub proof fn lemma_audit_is_plain_allow(
    e: crate::events::Event,
    rv: RuleView,
    settings: Settings,
    r: ActionStep,
)
    requires
        rv.effective_mode() == PolicyMode::Audit,
        spec_plan_ok(e, rv, settings, r),
    ensures
        r matches ActionStep::Done(resp) && resp@ == allow_view(),
{
}

/// In warn mode a rule whose action would block never blocks: its
/// contribution allows the operation and injects a non-empty warning that
/// opens with the marker naming the would-be block.
pub proof fn lemma_warn_never_blocks(
    e: crate::events::Event,
    rv: RuleView,
    settings: Settings,
    r: ActionStep,
)
    requires
        rv.effective_mode() == PolicyMode::Warn,
        rv.actions.block == Some(true) || spec_cond_block_fires(e, rv.actions),
        spec_plan_ok(e, rv, settings, r),
    ensures
        r is Done,
        r->Done_0@.continue_,
        r->Done_0@.context is Some,
        r->Done_0@.context->0.len() > 0,
        r->Done_0@.context->0.subrange(0, 9) == "[WARNING]"@,
{
    reveal_strlit("[WARNING] Rule '");
    reveal_strlit("[WARNING]");
    let resp = r->Done_0;
    if rv.actions.block == Some(true) {
        assert(resp@.context == Some(spec_warn_block_message(rv)));
        assert(spec_warn_block_message(rv).subrange(0, 9) =~= "[WARNING]"@);
    } else {
        assert(resp@.context == Some(spec_warn_cond_message(rv)));
        assert(spec_warn_cond_message(rv).subrange(0, 9) =~= "[WARNING]"@);
    }
}

} // verus!
