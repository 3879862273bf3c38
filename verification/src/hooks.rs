//! Folding per-rule responses into one final decision: the merge rule,
//! mode precedence, conflict resolution, and decision derivation.

use vstd::prelude::*;
use vstd::string::*;
use crate::audit::{LogEntry, LogMetadata, LogTiming, Outcome, RuleEvaluation};
use crate::config::DebugConfig;
use crate::events::{spec_extract_matches, Event, EventDetails};
use crate::matcher::{matches_rule, matches_rule_with_debug, spec_matches};
use crate::modes::{Decision, PolicyMode, TrustLevel};
use crate::response::{allow_view, Response, ResponseSummary, ResponseView};
use crate::rules::{GovernanceMetadata, Rule};

verus! {

/// Append an injected context to an accumulated one, separated by a blank
/// line; an absent side contributes nothing.
pub open spec fn ctx_join(acc: Option<Seq<char>>, c: Option<Seq<char>>) -> Option<Seq<char>> {
    match (acc, c) {
        (Some(a), Some(b)) => Some(a + "\n\n"@ + b),
        (Some(a), None) => Some(a),
        (None, b) => b,
    }
}

/// The merge rule for two responses.  A block already set is absorbing:
/// nothing after it changes the accumulator, so the first block - the
/// highest-priority one, in evaluation order - wins.  Until then, a new
/// block replaces the accumulator, and a new context, if any, is appended
/// to the accumulated context with a blank-line separator.
pub open spec fn merge_view(existing: ResponseView, new: ResponseView) -> ResponseView {
    if !existing.continue_ {
        existing
    } else if !new.continue_ {
        new
    } else {
        ResponseView {
            continue_: existing.continue_,
            context: ctx_join(existing.context, new.context),
            reason: existing.reason,
            timing: existing.timing,
        }
    }
}

/// Merge two responses: the first block wins and is never overridden or
/// extended; injections accumulate.
pub fn merge_responses(existing: Response, new: Response) -> (r: Response)
    ensures
        r@ == merge_view(existing@, new@),
{
    if !existing.continue_ {
        return existing;
    }
    if !new.continue_ {
        return new;
    }
    let Response { continue_, context, reason, timing } = existing;
    let context = match (context, new.context) {
        (Some(mut e), Some(n)) => {
            e.append("\n\n");
            e.append(n.as_str());
            Some(e)
        },
        (Some(e), None) => Some(e),
        (None, n) => n,
    };
    Response { continue_, context, reason, timing }
}

/// Merge two responses under a governing mode.  The mode does not change
/// the merge itself: mode awareness lives in action execution, which never
/// hands a blocking response to the aggregator in warn or audit mode.
pub fn merge_responses_with_mode(existing: Response, new: Response, mode: PolicyMode) -> (r:
    Response)
    ensures
        r@ == merge_view(existing@, new@),
{
    match mode {
        PolicyMode::Enforce => merge_responses(existing, new),
        PolicyMode::Warn | PolicyMode::Audit => merge_responses(existing, new),
    }
}

/// The models of a sequence of responses.
pub open spec fn response_views(s: Seq<Response>) -> Seq<ResponseView> {
    Seq::new(s.len(), |i: int| s[i]@)
}

/// The left fold of the merge rule over a sequence of responses, starting
/// from a plain allow.
pub open spec fn fold_view(s: Seq<ResponseView>) -> ResponseView
    decreases s.len(),
{
    if s.len() == 0 {
        allow_view()
    } else {
        merge_view(fold_view(s.drop_last()), s.last())
    }
}

/// Fold the ordered per-rule responses into one final response.  The order
/// must be rule evaluation order, highest priority first: the fold is not
/// commutative, because the first block decides the outcome and everything
/// after it is ignored.
pub fn fold_responses(responses: Vec<Response>) -> (r: Response)
    ensures
        r@ == fold_view(response_views(responses@)),
{
    let ghost all = responses@;
    let ghost mut processed: Seq<Response> = Seq::empty();
    let mut rest = responses;
    let mut acc = Response::allow();
    proof {
        assert(all =~= processed + rest@);
        assert(response_views(processed) =~= Seq::<ResponseView>::empty());
    }
    while rest.len() > 0
        invariant
            all == processed + rest@,
            acc@ == fold_view(response_views(processed)),
        decreases rest@.len(),
    {
        let x = rest.remove(0);
        let ghost xv = x;
        acc = merge_responses(acc, x);
        proof {
            let old_processed = processed;
            processed = processed.push(xv);
            assert(all =~= processed + rest@);
            assert(response_views(processed).drop_last() =~= response_views(old_processed));
            assert(response_views(processed).last() == xv@);
        }
    }
    proof {
        assert(all =~= processed);
        assert(response_views(all) =~= response_views(processed));
    }
    acc
}

/// Once any response in the sequence blocks, the folded response blocks:
/// later non-blocking responses never clear a block.
pub proof fn lemma_fold_block(s: Seq<ResponseView>)
    requires
        exists|i: int| 0 <= i < s.len() && !s[i].continue_,
    ensures
        !fold_view(s).continue_,
    decreases s.len(),
{
    if !s.last().continue_ {
    } else {
        let i = choose|i: int| 0 <= i < s.len() && !s[i].continue_;
        assert(s.drop_last()[i] == s[i]);
        lemma_fold_block(s.drop_last());
    }
}

/// Once any response in the sequence blocks, the folded response is the
/// first blocking response itself - in evaluation order, the
/// highest-priority block's - and the responses after it, blocking or
/// injecting, never override or extend it.
pub proof fn lemma_fold_first_block(s: Seq<ResponseView>, i: int)
    requires
        0 <= i < s.len(),
        !s[i].continue_,
        forall|j: int| 0 <= j < i ==> s[j].continue_,
    ensures
        fold_view(s) == s[i],
        !fold_view(s).continue_,
        fold_view(s).reason == s[i].reason,
    decreases s.len(),
{
    if i == s.len() - 1 {
        assert forall|j: int| 0 <= j < s.drop_last().len() implies s.drop_last()[j].continue_ by {
            assert(s.drop_last()[j] == s[j]);
        }
        lemma_fold_injections(s.drop_last());
        assert(fold_view(s) == s.last());
    } else {
        assert(s.drop_last()[i] == s[i]);
        lemma_fold_first_block(s.drop_last(), i);
    }
}

/// The concatenation, in order and with blank-line separators, of the
/// contexts injected by a sequence of responses.
pub open spec fn joined_contexts(s: Seq<ResponseView>) -> Option<Seq<char>>
    decreases s.len(),
{
    if s.len() == 0 {
        None
    } else {
        ctx_join(joined_contexts(s.drop_last()), s.last().context)
    }
}

/// For a sequence of non-blocking responses, the folded response allows the
/// operation and its injected context is the concatenation of each
/// response's injected text, in evaluation order, separated by a blank line.
pub proof fn lemma_fold_injections(s: Seq<ResponseView>)
    requires
        forall|i: int| 0 <= i < s.len() ==> s[i].continue_,
    ensures
        fold_view(s).continue_,
        fold_view(s).reason is None,
        fold_view(s).timing is None,
        fold_view(s).context == joined_contexts(s),
    decreases s.len(),
{
    if s.len() > 0 {
        assert forall|i: int| 0 <= i < s.drop_last().len() implies s.drop_last()[i].continue_ by {
            assert(s.drop_last()[i] == s[i]);
        }
        lemma_fold_injections(s.drop_last());
    }
}

/// A sequence of plain allows folds to a plain allow.
pub proof fn lemma_fold_allows(s: Seq<ResponseView>)
    requires
        forall|i: int| 0 <= i < s.len() ==> s[i] == allow_view(),
    ensures
        fold_view(s) == allow_view(),
    decreases s.len(),
{
    if s.len() > 0 {
        assert forall|i: int| 0 <= i < s.drop_last().len() implies s.drop_last()[i] == allow_view()
        by {
            assert(s.drop_last()[i] == s[i]);
        }
        lemma_fold_allows(s.drop_last());
    }
}

/// Derive the logged decision from the governing mode and the final
/// response: audit is always `Audited`; warn is `Warned` exactly when
/// context was injected; enforce is `Blocked` exactly on a block, and an
/// enforce injection still counts as `Allowed`.
pub fn determine_decision(response: &Response, mode: PolicyMode) -> (r: Decision)
    ensures
        r == spec_determine_decision(response.continue_, response.context is Some, mode),
        mode == PolicyMode::Audit ==> r == Decision::Audited,
        mode == PolicyMode::Warn && response.context is Some ==> r == Decision::Warned,
        mode == PolicyMode::Warn && response.context is None ==> r == Decision::Allowed,
        mode == PolicyMode::Enforce && !response.continue_ ==> r == Decision::Blocked,
        mode == PolicyMode::Enforce && response.continue_ ==> r == Decision::Allowed,
{
    match mode {
        PolicyMode::Audit => Decision::Audited,
        PolicyMode::Warn => {
            if response.context.is_some() {
                Decision::Warned
            } else {
                Decision::Allowed
            }
        },
        PolicyMode::Enforce => {
            if !response.continue_ {
                Decision::Blocked
            } else {
                Decision::Allowed
            }
        },
    }
}

/// Mode precedence for conflict resolution: a higher value wins.
pub fn mode_precedence(mode: PolicyMode) -> (r: u8)
    ensures
        mode == PolicyMode::Enforce ==> r == 3,
        mode == PolicyMode::Warn ==> r == 2,
        mode == PolicyMode::Audit ==> r == 1,
{
    match mode {
        PolicyMode::Enforce => 3,
        PolicyMode::Warn => 2,
        PolicyMode::Audit => 1,
    }
}

/// Numeric mode precedence, for specifications.
pub open spec fn spec_mode_precedence(mode: PolicyMode) -> int {
    match mode {
        PolicyMode::Enforce => 3,
        PolicyMode::Warn => 2,
        PolicyMode::Audit => 1,
    }
}

/// Whether `rule_a` takes precedence over `rule_b`: first by mode
/// precedence, then, among equal modes, by effective priority.
pub fn rule_takes_precedence(rule_a: &Rule, rule_b: &Rule) -> (r: bool)
    ensures
        r == {
            let pa = spec_mode_precedence(rule_a@.effective_mode());
            let pb = spec_mode_precedence(rule_b@.effective_mode());
            if pa != pb {
                pa > pb
            } else {
                rule_a@.effective_priority() > rule_b@.effective_priority()
            }
        },
{
    let prec_a = mode_precedence(rule_a.effective_mode());
    let prec_b = mode_precedence(rule_b.effective_mode());
    if prec_a != prec_b {
        prec_a > prec_b
    } else {
        rule_a.effective_priority() > rule_b.effective_priority()
    }
}

/// One matched rule's contribution, ready for conflict resolution.
#[derive(Debug)]
pub struct RuleConflictEntry {
    /// The matched rule.
    pub rule: Rule,
    /// The rule's mode-aware response.
    pub response: Response,
    /// The rule's effective mode.
    pub mode: PolicyMode,
    /// The rule's effective priority.
    pub priority: i32,
}

/// The entry is a blocking contribution from an Enforce-mode rule.
pub open spec fn entry_blocks(e: RuleConflictEntry) -> bool {
    e.mode == PolicyMode::Enforce && !e.response@.continue_
}

/// `i` is the position of the first blocking Enforce entry.
pub open spec fn is_first_enforce_block(s: Seq<RuleConflictEntry>, i: int) -> bool {
    0 <= i < s.len() && entry_blocks(s[i]) && (forall|j: int| 0 <= j < i ==> !entry_blocks(s[j]))
}

/// The context of an entry, counted only under the given mode.
pub open spec fn entry_ctx(e: RuleConflictEntry, m: PolicyMode) -> Option<Seq<char>> {
    if e.mode == m {
        e.response@.context
    } else {
        None
    }
}

/// Left fold of context accumulation over the entries of one mode.
pub open spec fn fold_ctx(s: Seq<RuleConflictEntry>, m: PolicyMode, acc: Option<Seq<char>>)
    -> Option<Seq<char>>
    decreases s.len(),
{
    if s.len() == 0 {
        acc
    } else {
        fold_ctx(s.subrange(1, s.len() as int), m, ctx_join(acc, entry_ctx(s[0], m)))
    }
}

/// The view of an accumulated optional context.
pub open spec fn opt_string_view(o: Option<String>) -> Option<Seq<char>> {
    match o {
        Some(s) => Some(s@),
        None => None,
    }
}

/// Append one context to the accumulator with a blank-line separator.
fn join_ctx(acc: Option<String>, c: &String) -> (r: Option<String>)
    ensures
        opt_string_view(r) == ctx_join(opt_string_view(acc), Some(c@)),
{
    match acc {
        Some(mut a) => {
            a.append("\n\n");
            a.append(c.as_str());
            Some(a)
        },
        None => Some(c.clone()),
    }
}

/// Accumulate the injected contexts of all entries of the given mode, in
/// order, onto `acc`.
fn accumulate_mode_contexts(entries: &[RuleConflictEntry], m: PolicyMode, acc: Option<String>)
    -> (r: Option<String>)
    ensures
        opt_string_view(r) == fold_ctx(entries@, m, opt_string_view(acc)),
{
    let n = entries.len();
    let mut acc = acc;
    let ghost acc0 = opt_string_view(acc);
    let mut i: usize = 0;
    proof {
        assert(entries@.subrange(0, n as int) =~= entries@);
    }
    while i < n
        invariant
            n == entries@.len(),
            0 <= i <= n,
            fold_ctx(entries@.subrange(i as int, n as int), m, opt_string_view(acc))
                == fold_ctx(entries@, m, acc0),
        decreases n - i,
    {
        proof {
            assert(entries@.subrange(i as int, n as int).subrange(
                1,
                entries@.subrange(i as int, n as int).len() as int,
            ) =~= entries@.subrange(i + 1, n as int));
            assert(entries@.subrange(i as int, n as int)[0] == entries@[i as int]);
        }
        if entries[i].mode == m {
            match &entries[i].response.context {
                Some(c) => {
                    acc = join_ctx(acc, c);
                },
                None => {},
            }
        }
        i = i + 1;
    }
    proof {
        assert(entries@.subrange(n as int, n as int) =~= Seq::<RuleConflictEntry>::empty());
    }
    acc
}

/// Resolve the contributions of several matched rules into one response.
///
/// The entries must be handed in rule evaluation order (highest priority
/// first).  A blocking Enforce entry is authoritative: the first one wins,
/// regardless of the priority of any Warn or Audit entry.  When no Enforce
/// entry blocks, the injections of Enforce entries are concatenated before
/// those of Warn entries, each group in order, and the result allows the
/// operation.
pub fn resolve_conflicts(entries: &[RuleConflictEntry]) -> (r: Response)
    ensures
        forall|i: int| is_first_enforce_block(entries@, i) ==> r@ == entries@[i].response@,
        (forall|i: int| 0 <= i < entries@.len() ==> !entry_blocks(entries@[i])) ==> {
            &&& r@.continue_
            &&& r@.reason is None
            &&& r@.timing is None
            &&& r@.context == fold_ctx(
                entries@,
                PolicyMode::Warn,
                fold_ctx(entries@, PolicyMode::Enforce, None),
            )
        },
        !r@.continue_ ==> exists|i: int| is_first_enforce_block(entries@, i),
{
    let n = entries.len();
    let mut i: usize = 0;
    while i < n
        invariant
            n == entries@.len(),
            0 <= i <= n,
            forall|j: int| 0 <= j < i ==> !entry_blocks(entries@[j]),
        decreases n - i,
    {
        if matches!(entries[i].mode, PolicyMode::Enforce) && !entries[i].response.continue_ {
            let r = entries[i].response.clone();
            proof {
                assert(entry_blocks(entries@[i as int]));
                assert(is_first_enforce_block(entries@, i as int));
            }
            return r;
        }
        i = i + 1;
    }
    let enforce_ctx = accumulate_mode_contexts(entries, PolicyMode::Enforce, None);
    let all_ctx = accumulate_mode_contexts(entries, PolicyMode::Warn, enforce_ctx);
    match all_ctx {
        Some(context) => Response::inject(context.as_str()),
        None => Response::allow(),
    }
}

/// When entries stand in non-increasing priority order, the first blocking
/// Enforce entry is a highest-priority blocking entry: no blocking entry
/// after it has a higher priority.
pub proof fn lemma_first_block_is_highest_priority(s: Seq<RuleConflictEntry>, i: int, j: int)
    requires
        forall|a: int, b: int| 0 <= a < b < s.len() ==> s[a].priority >= s[b].priority,
        is_first_enforce_block(s, i),
        0 <= j < s.len(),
        entry_blocks(s[j]),
    ensures
        s[i].priority >= s[j].priority,
{
    if j < i {
        assert(!entry_blocks(s[j]));
    }
}

/// The logged decision, by the governing mode and the final response.
pub open spec fn spec_determine_decision(
    continue_: bool,
    has_context: bool,
    mode: PolicyMode,
) -> Decision {
    match mode {
        PolicyMode::Audit => Decision::Audited,
        PolicyMode::Warn => if has_context {
            Decision::Warned
        } else {
            Decision::Allowed
        },
        PolicyMode::Enforce => if !continue_ {
            Decision::Blocked
        } else {
            Decision::Allowed
        },
    }
}

/// Filtering by applicability distributes over appending one rule.
proof fn lemma_match_filter_push(s: Seq<Rule>, r: Rule, e: Event)
    ensures
        spec_matches(e, r@.matchers) ==> s.push(r).filter(
            |x: Rule| spec_matches(e, x@.matchers),
        ) == s.filter(|x: Rule| spec_matches(e, x@.matchers)).push(r),
        !spec_matches(e, r@.matchers) ==> s.push(r).filter(
            |x: Rule| spec_matches(e, x@.matchers),
        ) == s.filter(|x: Rule| spec_matches(e, x@.matchers)),
{
    reveal(Seq::filter);
    assert(s.push(r).drop_last() =~= s);
    assert(s.push(r).last() == r);
}

/// Walk the rules in the order given - rule evaluation order, highest
/// priority first - and split off those that apply to the event, recording
/// one evaluation entry per rule; in debug mode the entry carries full
/// per-criterion detail.
pub fn evaluate_matches(event: &Event, rules: Vec<Rule>, debug_config: &DebugConfig) -> (r: (
    Vec<Rule>,
    Vec<RuleEvaluation>,
))
    ensures
        r.0@ == rules@.filter(|x: Rule| spec_matches(*event, x@.matchers)),
        r.1@.len() == rules@.len(),
        forall|i: int| 0 <= i < rules@.len() ==> {
            &&& (#[trigger] r.1@[i]).rule_name@ == rules@[i]@.name@
            &&& r.1@[i].matched == spec_matches(*event, rules@[i]@.matchers)
            &&& (debug_config.enabled ==> r.1@[i].matcher_results is Some)
            &&& (!debug_config.enabled ==> r.1@[i].matcher_results is None)
        },
{
    let ghost all = rules@;
    let ghost pred = |x: Rule| spec_matches(*event, x@.matchers);
    let ghost mut processed: Seq<Rule> = Seq::empty();
    let mut rest = rules;
    let mut matched_rules: Vec<Rule> = Vec::new();
    let mut rule_evaluations: Vec<RuleEvaluation> = Vec::new();
    proof {
        reveal(Seq::filter);
        assert(all =~= processed + rest@);
    }
    while rest.len() > 0
        invariant
            all == processed + rest@,
            pred == |x: Rule| spec_matches(*event, x@.matchers),
            matched_rules@ == processed.filter(pred),
            rule_evaluations@.len() == processed.len(),
            forall|i: int| 0 <= i < processed.len() ==> {
                &&& (#[trigger] rule_evaluations@[i]).rule_name@ == processed[i]@.name@
                &&& rule_evaluations@[i].matched == spec_matches(*event, processed[i]@.matchers)
                &&& (debug_config.enabled ==> rule_evaluations@[i].matcher_results is Some)
                &&& (!debug_config.enabled ==> rule_evaluations@[i].matcher_results is None)
            },
        decreases rest@.len(),
    {
        let rule = rest.remove(0);
        let ghost rv = rule;
        let (matched, matcher_results) = if debug_config.enabled {
            matches_rule_with_debug(event, &rule)
        } else {
            (matches_rule(event, &rule), None)
        };
        rule_evaluations.push(
            RuleEvaluation { rule_name: rule.name.clone(), matched, matcher_results },
        );
        if matched {
            matched_rules.push(rule);
        }
        proof {
            let old_processed = processed;
            processed = processed.push(rv);
            assert(all =~= processed + rest@);
            lemma_match_filter_push(old_processed, rv, *event);
        }
    }
    proof {
        assert(all =~= processed);
    }
    (matched_rules, rule_evaluations)
}

/// Copy the matched rules' names, in order.
fn matched_names(matched_rules: &Vec<Rule>) -> (r: Vec<String>)
    ensures
        r@.len() == matched_rules@.len(),
        forall|i: int| 0 <= i < r@.len() ==> (#[trigger] r@[i])@ == matched_rules@[i]@.name@,
{
    let mut out: Vec<String> = Vec::new();
    let mut i: usize = 0;
    while i < matched_rules.len()
        invariant
            0 <= i <= matched_rules@.len(),
            out@.len() == i,
            forall|j: int| 0 <= j < i ==> (#[trigger] out@[j])@ == matched_rules@[j]@.name@,
        decreases matched_rules@.len() - i,
    {
        out.push(matched_rules[i].name.clone());
        i = i + 1;
    }
    out
}

/// Assemble the audit record for one processed event: the event's identity
/// and typed details, the matched rules' names, the outcome and response
/// summary, the timing, the governance fields of the primary matched rule,
/// and - in debug mode only - the raw event and the per-rule detail.
/// What `build_log_entry` promises of the assembled record.
pub open spec fn spec_log_entry_ok(
    event: Event,
    matched: Seq<Rule>,
    response: Response,
    processing_ms: u64,
    rules_evaluated: usize,
    debug_enabled: bool,
    raw: Option<String>,
    evals: Seq<RuleEvaluation>,
    r: LogEntry,
) -> bool {
    &&& r.timestamp == event.timestamp
    &&& r.event_type@ == crate::events::spec_event_type_name(event.event_type)
    &&& r.session_id == event.session_id
    &&& r.tool_name == event.tool_name
    &&& r.rules_matched@.len() == matched.len()
    &&& forall|i: int|
        0 <= i < matched.len() ==> (#[trigger] r.rules_matched@[i])@ == matched[i]@.name@
    &&& r.outcome == (if !response.continue_ {
        Outcome::Block
    } else if response.context is Some {
        Outcome::Inject
    } else {
        Outcome::Allow
    })
    &&& r.timing == LogTiming { processing_ms, rules_evaluated }
    &&& (r.metadata matches Some(md) && md.validator_output is None && (
    md.injected_files is Some <==> response.context is Some) && (
    md.injected_files matches Some(v) ==> v@.len() == 1 && v@[0]@ == "injected"@))
    &&& (r.event_details matches Some(d) && spec_extract_matches(event, d))
    &&& (r.response matches Some(rs) && rs.continue_ == response.continue_ && rs.reason
        == response.reason && (rs.context_length is Some <==> response.context is Some) && (
    response.context matches Some(c) ==> rs.context_length == Some(c@.len() as usize)))
    &&& (debug_enabled ==> (r.raw_event == raw && (r.rule_evaluations matches Some(v) && v@
        == evals)))
    &&& (!debug_enabled ==> (r.raw_event is None && r.rule_evaluations is None))
    &&& (matched.len() == 0 ==> (r.mode is None && r.priority is None && r.decision is None
        && r.governance is None && r.trust_level is None))
    &&& (matched.len() > 0 ==> ({
        &&& r.mode == Some(matched[0]@.effective_mode())
        &&& (r.priority matches Some(p) && p as int == matched[0]@.effective_priority())
        &&& r.decision == Some(
            spec_determine_decision(
                response.continue_,
                response.context is Some,
                matched[0]@.effective_mode(),
            ),
        )
        &&& (r.governance is Some <==> matched[0].governance is Some)
        &&& (r.governance matches Some(g) ==> g@ == matched[0].governance->0@)
        &&& (r.trust_level is Some <==> matched[0].actions.run is Some)
        &&& (r.trust_level matches Some(t) ==> t
            == matched[0].actions.run->0.spec_trust_level())
    }))
}

pub fn build_log_entry(
    event: &Event,
    matched_rules: &Vec<Rule>,
    response: &Response,
    processing_ms: u64,
    rules_evaluated: usize,
    debug_config: &DebugConfig,
    raw_event: Option<String>,
    rule_evaluations: Vec<RuleEvaluation>,
) -> (r: LogEntry)
    ensures
        spec_log_entry_ok(
            *event,
            matched_rules@,
            *response,
            processing_ms,
            rules_evaluated,
            debug_config.enabled,
            raw_event,
            rule_evaluations@,
            r,
        ),
{
    let (mode, priority, governance, trust_level) = extract_governance_data(matched_rules);
    let decision = match mode {
        Some(m) => Some(determine_decision(response, m)),
        None => None,
    };
    let outcome = if !response.continue_ {
        Outcome::Block
    } else if response.context.is_some() {
        Outcome::Inject
    } else {
        Outcome::Allow
    };
    let injected_files = match &response.context {
        Some(_) => {
            let mut v: Vec<String> = Vec::new();
            v.push(String::from_str("injected"));
            Some(v)
        },
        None => None,
    };
    let (raw_event, rule_evaluations) = if debug_config.enabled {
        (raw_event, Some(rule_evaluations))
    } else {
        (None, None)
    };
    LogEntry {
        timestamp: event.timestamp,
        event_type: event.event_type.as_str().to_owned(),
        session_id: event.session_id.clone(),
        tool_name: crate::rules::clone_opt_string(&event.tool_name),
        rules_matched: matched_names(matched_rules),
        outcome,
        timing: LogTiming { processing_ms, rules_evaluated },
        metadata: Some(LogMetadata { injected_files, validator_output: None }),
        event_details: Some(EventDetails::extract(event)),
        response: Some(ResponseSummary::from_response(response)),
        raw_event,
        rule_evaluations,
        mode,
        priority,
        decision,
        governance,
        trust_level,
    }
}

/// Governance data drawn from the primary (first, highest-priority) matched
/// rule: its mode, priority, governance metadata, and the trust level of
/// its validator action; all absent when no rule matched.
pub fn extract_governance_data(matched_rules: &Vec<Rule>) -> (r: (
    Option<PolicyMode>,
    Option<i32>,
    Option<GovernanceMetadata>,
    Option<TrustLevel>,
))
    ensures
        matched_rules@.len() == 0 ==> r.0 is None && r.1 is None && r.2 is None && r.3 is None,
        matched_rules@.len() > 0 ==> {
            &&& r.0 == Some(matched_rules@[0]@.effective_mode())
            &&& r.1 matches Some(p) && p as int == matched_rules@[0]@.effective_priority()
            &&& (r.2 is Some <==> matched_rules@[0].governance is Some)
            &&& (r.2 matches Some(g) ==> g@ == matched_rules@[0].governance->0@)
            &&& (r.3 is Some <==> matched_rules@[0].actions.run is Some)
            &&& (r.3 matches Some(t) ==> t == matched_rules@[0].actions.run->0.spec_trust_level())
        },
{
    if matched_rules.len() > 0 {
        let primary = &matched_rules[0];
        let mode = Some(primary.effective_mode());
        let priority = Some(primary.effective_priority());
        let governance = match &primary.governance {
            Some(g) => Some(g.clone()),
            None => None,
        };
        let trust_level = primary.actions.trust_level();
        (mode, priority, governance, trust_level)
    } else {
        (None, None, None, None)
    }
}

} // verus!
