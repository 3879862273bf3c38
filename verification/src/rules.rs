//! The rule model: matchers, actions, governance fields, effective
//! mode / priority resolution, and the stable priority sort.

use vstd::prelude::*;
use crate::modes::{Confidence, PolicyMode, TrustLevel};

verus! {

/// Governance metadata for rules: provenance and documentation.
#[derive(Debug)]
pub struct GovernanceMetadata {
    /// Who authored this rule.
    pub author: Option<String>,
    /// Source that created this rule.
    pub created_by: Option<String>,
    /// Why this rule exists.
    pub reason: Option<String>,
    /// Confidence level in this rule.
    pub confidence: Option<Confidence>,
    /// When this rule was last reviewed (ISO 8601 date).
    pub last_reviewed: Option<String>,
    /// Related ticket or issue reference.
    pub ticket: Option<String>,
    /// Tags for categorisation.
    pub tags: Option<Vec<String>>,
}

/// The mathematical model of `GovernanceMetadata`: the tag list as a sequence.
pub struct GovernanceMetadataView {
    pub author: Option<String>,
    pub created_by: Option<String>,
    pub reason: Option<String>,
    pub confidence: Option<Confidence>,
    pub last_reviewed: Option<String>,
    pub ticket: Option<String>,
    pub tags: Option<Seq<String>>,
}

impl View for GovernanceMetadata {
    type V = GovernanceMetadataView;

    open spec fn view(&self) -> GovernanceMetadataView {
        GovernanceMetadataView {
            author: self.author,
            created_by: self.created_by,
            reason: self.reason,
            confidence: self.confidence,
            last_reviewed: self.last_reviewed,
            ticket: self.ticket,
            tags: match self.tags {
                Some(t) => Some(t@),
                None => None,
            },
        }
    }
}

impl Default for GovernanceMetadata {
    /// Governance metadata with no field filled in.
    fn default() -> (r: Self)
        ensures
            r.author is None,
            r.created_by is None,
            r.reason is None,
            r.confidence is None,
            r.last_reviewed is None,
            r.ticket is None,
            r.tags is None,
    {
        GovernanceMetadata {
            author: None,
            created_by: None,
            reason: None,
            confidence: None,
            last_reviewed: None,
            ticket: None,
            tags: None,
        }
    }
}

/// Duplicate an optional string; the copy equals the original.
pub fn clone_opt_string(s: &Option<String>) -> (r: Option<String>)
    ensures
        r == *s,
{
    match s {
        Some(v) => Some(v.clone()),
        None => None,
    }
}

/// Duplicate a vector of strings; the copy's view equals the original's.
pub fn clone_string_vec(v: &Vec<String>) -> (r: Vec<String>)
    ensures
        r@ == v@,
{
    let mut out: Vec<String> = Vec::new();
    let mut i: usize = 0;
    while i < v.len()
        invariant
            0 <= i <= v@.len(),
            out@ =~= v@.subrange(0, i as int),
        decreases v@.len() - i,
    {
        out.push(v[i].clone());
        i = i + 1;
    }
    proof {
        assert(out@ =~= v@);
    }
    out
}

impl Clone for GovernanceMetadata {
    /// The copy's view equals the original's.
    fn clone(&self) -> (r: Self)
        ensures
            r@ == self@,
    {
        GovernanceMetadata {
            author: clone_opt_string(&self.author),
            created_by: clone_opt_string(&self.created_by),
            reason: clone_opt_string(&self.reason),
            confidence: self.confidence,
            last_reviewed: clone_opt_string(&self.last_reviewed),
            ticket: clone_opt_string(&self.ticket),
            tags: match &self.tags {
                Some(t) => Some(clone_string_vec(t)),
                None => None,
            },
        }
    }
}

/// The default script execution timeout in seconds.
pub fn default_timeout() -> (r: u32)
    ensures
        r == 5,
{
    5
}

/// Rules are enabled unless the configuration says otherwise.
pub fn default_enabled() -> (r: bool)
    ensures
        r,
{
    true
}

/// Legacy per-rule metadata.
#[derive(Debug, Clone, Copy, PartialEq, Eq, Structural)]
pub struct RuleMetadata {
    /// Rule evaluation order (higher numbers = higher priority).
    pub priority: i32,
    /// Script execution timeout in seconds.
    pub timeout: u32,
    /// Whether this rule is enabled.
    pub enabled: bool,
}

impl Default for RuleMetadata {
    /// Priority 0, the default timeout, enabled.
    fn default() -> (r: Self)
        ensures
            r.priority == 0,
            r.timeout == 5,
            r.enabled,
    {
        RuleMetadata { priority: 0, timeout: default_timeout(), enabled: default_enabled() }
    }
}

/// A validator invocation: either a bare script path, or a script path with
/// a trust annotation.  Both shapes appear in configuration files; they are
/// normalized at the parsing boundary into this one representation.
#[derive(Debug)]
pub enum RunAction {
    /// Just the script path.
    Simple(String),
    /// Script path with an optional trust level.
    Extended { script: String, trust: Option<TrustLevel> },
}

impl Clone for RunAction {
    /// The copy equals the original.
    fn clone(&self) -> (r: Self)
        ensures
            r == *self,
    {
        match self {
            RunAction::Simple(p) => RunAction::Simple(p.clone()),
            RunAction::Extended { script, trust } => RunAction::Extended {
                script: script.clone(),
                trust: *trust,
            },
        }
    }
}

impl RunAction {
    /// The script path, whichever shape the action has.
    pub open spec fn spec_script_path(&self) -> String {
        match self {
            RunAction::Simple(p) => *p,
            RunAction::Extended { script, .. } => *script,
        }
    }

    /// Get the script path regardless of format.
    pub fn script_path(&self) -> (r: &str)
        ensures
            r@ == self.spec_script_path()@,
    {
        match self {
            RunAction::Simple(p) => p.as_str(),
            RunAction::Extended { script, .. } => script.as_str(),
        }
    }

    /// The trust level; `Local` when not specified.
    pub open spec fn spec_trust_level(&self) -> TrustLevel {
        match self {
            RunAction::Simple(_) => TrustLevel::Local,
            RunAction::Extended { trust, .. } => match trust {
                Some(t) => *t,
                None => TrustLevel::Local,
            },
        }
    }

    /// Get the trust level (defaults to `Local` if not specified).
    pub fn trust_level(&self) -> (r: TrustLevel)
        ensures
            r == self.spec_trust_level(),
    {
        match self {
            RunAction::Simple(_) => TrustLevel::Local,
            RunAction::Extended { trust, .. } => match trust {
                Some(t) => *t,
                None => TrustLevel::Local,
            },
        }
    }
}

/// Conditions that trigger a rule.  Every criterion is optional; an absent
/// criterion always passes.
#[derive(Debug)]
pub struct Matchers {
    /// Tool names to match.
    pub tools: Option<Vec<String>>,
    /// File extensions to match, with their leading dot.
    pub extensions: Option<Vec<String>>,
    /// Directory patterns to match.
    pub directories: Option<Vec<String>>,
    /// Operation (event-type) names to match.
    pub operations: Option<Vec<String>>,
    /// Regex pattern tested against the event's command string.
    pub command_match: Option<String>,
}

/// The mathematical model of `Matchers`: string lists as sequences.
pub struct MatchersView {
    pub tools: Option<Seq<String>>,
    pub extensions: Option<Seq<String>>,
    pub directories: Option<Seq<String>>,
    pub operations: Option<Seq<String>>,
    pub command_match: Option<String>,
}

impl View for Matchers {
    type V = MatchersView;

    open spec fn view(&self) -> MatchersView {
        MatchersView {
            tools: match self.tools {
                Some(t) => Some(t@),
                None => None,
            },
            extensions: match self.extensions {
                Some(t) => Some(t@),
                None => None,
            },
            directories: match self.directories {
                Some(t) => Some(t@),
                None => None,
            },
            operations: match self.operations {
                Some(t) => Some(t@),
                None => None,
            },
            command_match: self.command_match,
        }
    }
}

fn clone_opt_string_vec(v: &Option<Vec<String>>) -> (r: Option<Vec<String>>)
    ensures
        r is Some <==> *v is Some,
        r matches Some(rv) ==> v matches Some(vv) && rv@ == vv@,
{
    match v {
        Some(t) => Some(clone_string_vec(t)),
        None => None,
    }
}

impl Clone for Matchers {
    /// The copy's view equals the original's.
    fn clone(&self) -> (r: Self)
        ensures
            r@ == self@,
    {
        Matchers {
            tools: clone_opt_string_vec(&self.tools),
            extensions: clone_opt_string_vec(&self.extensions),
            directories: clone_opt_string_vec(&self.directories),
            operations: clone_opt_string_vec(&self.operations),
            command_match: clone_opt_string(&self.command_match),
        }
    }
}

/// Actions taken when a rule matches.  At most one action governs a rule's
/// contribution per event, in the order: `block`, `block_if_match`,
/// `inject`, `run`.
#[derive(Debug)]
pub struct Actions {
    /// Path of a context file to inject.
    pub inject: Option<String>,
    /// Validator script to execute.
    pub run: Option<RunAction>,
    /// Whether to block the operation unconditionally.
    pub block: Option<bool>,
    /// Regex pattern for conditional blocking against new content.
    pub block_if_match: Option<String>,
}

impl Clone for Actions {
    /// The copy equals the original.
    fn clone(&self) -> (r: Self)
        ensures
            r == *self,
    {
        Actions {
            inject: clone_opt_string(&self.inject),
            run: match &self.run {
                Some(a) => Some(a.clone()),
                None => None,
            },
            block: self.block,
            block_if_match: clone_opt_string(&self.block_if_match),
        }
    }
}

impl Actions {
    /// The configured validator script path, if a run action is present.
    pub open spec fn spec_script_path(&self) -> Option<String> {
        match self.run {
            Some(a) => Some(a.spec_script_path()),
            None => None,
        }
    }

    /// Get the script path from the run action (if present).
    pub fn script_path(&self) -> (r: Option<&str>)
        ensures
            r is Some <==> self.run is Some,
            r matches Some(p) ==> p@ == self.spec_script_path()->0@,
    {
        match &self.run {
            Some(a) => Some(a.script_path()),
            None => None,
        }
    }

    /// Get the trust level from the run action (defaults to `Local`).
    pub fn trust_level(&self) -> (r: Option<TrustLevel>)
        ensures
            r is Some <==> self.run is Some,
            r matches Some(t) ==> t == self.run->0.spec_trust_level(),
    {
        match &self.run {
            Some(a) => Some(a.trust_level()),
            None => None,
        }
    }
}

/// A declarative policy rule: matchers, actions, and governance fields.
#[derive(Debug)]
pub struct Rule {
    /// Unique identifier for the rule.
    pub name: String,
    /// Human-readable explanation.
    pub description: Option<String>,
    /// Conditions that trigger the rule.
    pub matchers: Matchers,
    /// Actions to take when the rule matches.
    pub actions: Actions,
    /// Policy enforcement mode; `Enforce` when absent.
    pub mode: Option<PolicyMode>,
    /// Rule evaluation priority; higher numbers run first.
    pub priority: Option<i32>,
    /// Governance metadata.
    pub governance: Option<GovernanceMetadata>,
    /// Legacy metadata (priority, timeout, enabled flag).
    pub metadata: Option<RuleMetadata>,
}

/// The mathematical model of a `Rule`.
pub struct RuleView {
    pub name: String,
    pub description: Option<String>,
    pub matchers: MatchersView,
    pub actions: Actions,
    pub mode: Option<PolicyMode>,
    pub priority: Option<i32>,
    pub governance: Option<GovernanceMetadataView>,
    pub metadata: Option<RuleMetadata>,
}

impl View for Rule {
    type V = RuleView;

    open spec fn view(&self) -> RuleView {
        RuleView {
            name: self.name,
            description: self.description,
            matchers: self.matchers@,
            actions: self.actions,
            mode: self.mode,
            priority: self.priority,
            governance: match self.governance {
                Some(g) => Some(g@),
                None => None,
            },
            metadata: self.metadata,
        }
    }
}

impl Clone for Rule {
    /// The copy's view equals the original's.
    fn clone(&self) -> (r: Self)
        ensures
            r@ == self@,
    {
        Rule {
            name: self.name.clone(),
            description: clone_opt_string(&self.description),
            matchers: self.matchers.clone(),
            actions: self.actions.clone(),
            mode: self.mode,
            priority: self.priority,
            governance: match &self.governance {
                Some(g) => Some(g.clone()),
                None => None,
            },
            metadata: self.metadata,
        }
    }
}

impl RuleView {
    /// The effective policy mode: the explicit mode, else `Enforce`.
    pub open spec fn effective_mode(self) -> PolicyMode {
        match self.mode {
            Some(m) => m,
            None => PolicyMode::Enforce,
        }
    }

    /// The effective priority: the explicit `priority` field, else the
    /// legacy metadata priority, else 0.
    pub open spec fn effective_priority(self) -> int {
        match self.priority {
            Some(p) => p as int,
            None => match self.metadata {
                Some(m) => m.priority as int,
                None => 0,
            },
        }
    }

    /// Whether the rule is enabled: the legacy `enabled` flag, else true.
    pub open spec fn is_enabled(self) -> bool {
        match self.metadata {
            Some(m) => m.enabled,
            None => true,
        }
    }
}

impl Rule {
    /// Get the effective policy mode (defaults to `Enforce`).
    pub fn effective_mode(&self) -> (r: PolicyMode)
        ensures
            r == self@.effective_mode(),
    {
        match self.mode {
            Some(m) => m,
            None => PolicyMode::Enforce,
        }
    }

    /// Get the effective priority (defaults to 0).  Checks the new
    /// `priority` field first, with fallback to the legacy metadata priority.
    pub fn effective_priority(&self) -> (r: i32)
        ensures
            r as int == self@.effective_priority(),
    {
        match self.priority {
            Some(p) => p,
            None => match self.metadata {
                Some(m) => m.priority,
                None => 0,
            },
        }
    }

    /// Check whether the rule is enabled.  Uses the legacy
    /// `metadata.enabled` field, defaulting to true.
    pub fn is_enabled(&self) -> (r: bool)
        ensures
            r == self@.is_enabled(),
    {
        match self.metadata {
            Some(m) => m.enabled,
            None => true,
        }
    }
}

/// Rules in non-increasing order of effective priority.
pub open spec fn sorted_desc(s: Seq<Rule>) -> bool {
    forall|i: int, j: int|
        0 <= i < j < s.len() ==> s[i]@.effective_priority() >= s[j]@.effective_priority()
}

/// The subsequence of `s` whose rules have effective priority `p`.
pub open spec fn prio_filter(s: Seq<Rule>, p: int) -> Seq<Rule> {
    s.filter(|r: Rule| r@.effective_priority() == p)
}

/// A sequence with no rule of effective priority `p` filters to nothing.
proof fn lemma_prio_filter_empty(s: Seq<Rule>, p: int)
    requires
        forall|i: int| 0 <= i < s.len() ==> s[i]@.effective_priority() != p,
    ensures
        prio_filter(s, p) == Seq::<Rule>::empty(),
    decreases s.len(),
{
    reveal(Seq::filter);
    if s.len() > 0 {
        lemma_prio_filter_empty(s.drop_last(), p);
    }
}

/// Filtering a one-rule sequence keeps the rule exactly when its priority
/// is the one filtered for.
proof fn lemma_prio_filter_singleton(r: Rule, p: int)
    ensures
        r@.effective_priority() == p ==> prio_filter(seq![r], p) == seq![r],
        r@.effective_priority() != p ==> prio_filter(seq![r], p) == Seq::<Rule>::empty(),
{
    reveal_with_fuel(Seq::filter, 2);
    assert(seq![r].drop_last() =~= Seq::<Rule>::empty());
    assert(Seq::<Rule>::empty().filter(|x: Rule| x@.effective_priority() == p)
        =~= Seq::<Rule>::empty());
}

/// Filtering distributes over appending one rule.
proof fn lemma_prio_filter_push(s: Seq<Rule>, r: Rule, p: int)
    ensures
        r@.effective_priority() == p ==> prio_filter(s.push(r), p) == prio_filter(s, p).push(r),
        r@.effective_priority() != p ==> prio_filter(s.push(r), p) == prio_filter(s, p),
{
    reveal(Seq::filter);
    assert(s.push(r).drop_last() =~= s);
    assert(s.push(r).last() == r);
}

/// The models of a sequence of rules.
pub open spec fn rule_views(s: Seq<Rule>) -> Seq<RuleView> {
    Seq::new(s.len(), |i: int| s[i]@)
}

/// The subsequence of enabled rules, in declaration order.
pub open spec fn enabled_filter(s: Seq<Rule>) -> Seq<Rule> {
    s.filter(|r: Rule| r@.is_enabled())
}

/// Filtering distributes over appending one rule to the enabled filter.
pub proof fn lemma_enabled_filter_push(s: Seq<Rule>, r: Rule)
    ensures
        r@.is_enabled() ==> enabled_filter(s.push(r)) == enabled_filter(s).push(r),
        !r@.is_enabled() ==> enabled_filter(s.push(r)) == enabled_filter(s),
{
    reveal(Seq::filter);
    assert(s.push(r).drop_last() =~= s);
    assert(s.push(r).last() == r);
}

/// How many rules before position `i` the predicate keeps: the rank of
/// position `i` within the filtered subsequence.
pub open spec fn filter_rank(s: Seq<Rule>, pred: spec_fn(Rule) -> bool, i: int) -> int {
    s.subrange(0, i).filter(pred).len() as int
}

/// A filter splits at any position.
proof fn lemma_filter_split(s: Seq<Rule>, pred: spec_fn(Rule) -> bool, m: int)
    requires
        0 <= m <= s.len(),
    ensures
        s.filter(pred) == s.subrange(0, m).filter(pred) + s.subrange(m, s.len() as int).filter(
            pred,
        ),
{
    Seq::filter_distributes_over_add(s.subrange(0, m), s.subrange(m, s.len() as int), pred);
    assert(s.subrange(0, m) + s.subrange(m, s.len() as int) =~= s);
}

/// Extending a prefix by one element extends its filter by that element
/// exactly when the predicate keeps it.
proof fn lemma_filter_prefix_step(s: Seq<Rule>, pred: spec_fn(Rule) -> bool, i: int)
    requires
        0 <= i < s.len(),
    ensures
        pred(s[i]) ==> s.subrange(0, i + 1).filter(pred) == s.subrange(0, i).filter(pred).push(
            s[i],
        ),
        !pred(s[i]) ==> s.subrange(0, i + 1).filter(pred) == s.subrange(0, i).filter(pred),
{
    reveal(Seq::filter);
    assert(s.subrange(0, i + 1).drop_last() =~= s.subrange(0, i));
    assert(s.subrange(0, i + 1).last() == s[i]);
}

/// A kept element stands in the filtered subsequence at its rank.
proof fn lemma_filter_rank_take(s: Seq<Rule>, pred: spec_fn(Rule) -> bool, i: int)
    requires
        0 <= i < s.len(),
        pred(s[i]),
    ensures
        0 <= filter_rank(s, pred, i) < s.filter(pred).len(),
        s.filter(pred)[filter_rank(s, pred, i)] == s[i],
{
    lemma_filter_prefix_step(s, pred, i);
    lemma_filter_split(s, pred, i + 1);
    let a = s.subrange(0, i).filter(pred);
    let rest = s.subrange(i + 1, s.len() as int).filter(pred);
    assert(s.filter(pred) =~= a.push(s[i]) + rest);
    assert((a.push(s[i]) + rest)[a.len() as int] == s[i]);
}

/// Ranks never decrease along a sequence.
proof fn lemma_filter_rank_mono(s: Seq<Rule>, pred: spec_fn(Rule) -> bool, a: int, b: int)
    requires
        0 <= a <= b <= s.len(),
    ensures
        filter_rank(s, pred, a) <= filter_rank(s, pred, b),
{
    Seq::filter_distributes_over_add(s.subrange(0, a), s.subrange(a, b), pred);
    assert(s.subrange(0, a) + s.subrange(a, b) =~= s.subrange(0, b));
}

/// A kept element strictly raises the rank of every later position.
proof fn lemma_filter_rank_strict(s: Seq<Rule>, pred: spec_fn(Rule) -> bool, i: int, j: int)
    requires
        0 <= i < j <= s.len(),
        pred(s[i]),
    ensures
        filter_rank(s, pred, i) < filter_rank(s, pred, j),
{
    lemma_filter_prefix_step(s, pred, i);
    lemma_filter_rank_mono(s, pred, i + 1, j);
}

/// Each position of the filtered subsequence comes from a kept element of
/// the sequence, standing at that rank.
proof fn lemma_filter_index(s: Seq<Rule>, pred: spec_fn(Rule) -> bool, k: int) -> (idx: int)
    requires
        0 <= k < s.filter(pred).len(),
    ensures
        0 <= idx < s.len(),
        pred(s[idx]),
        s.filter(pred)[k] == s[idx],
        filter_rank(s, pred, idx) == k,
    decreases s.len(),
{
    reveal(Seq::filter);
    if s.len() == 0 {
        0
    } else {
        let dl = s.drop_last();
        let fdl = dl.filter(pred);
        if pred(s.last()) && k == fdl.len() {
            assert(s.filter(pred) == fdl.push(s.last()));
            assert(s.subrange(0, s.len() - 1) =~= dl);
            s.len() - 1
        } else {
            assert(k < fdl.len());
            let idx = lemma_filter_index(dl, pred, k);
            assert(s[idx] == dl[idx]);
            assert(s.subrange(0, idx) =~= dl.subrange(0, idx));
            assert(s.filter(pred)[k] == fdl[k]);
            idx
        }
    }
}

/// Stability of a priority class, at the level of indices: when two rules
/// of one effective priority stand at positions `i < j` of `orig`, and
/// `sorted` preserves that priority class's models - as the stable sort
/// and `enabled_rules` promise - the two rules' models stand in `sorted`
/// in the same relative order.
pub proof fn lemma_stable_order(sorted: Seq<Rule>, orig: Seq<Rule>, i: int, j: int) -> (r: (
    int,
    int,
))
    requires
        0 <= i < j < orig.len(),
        orig[i]@.effective_priority() == orig[j]@.effective_priority(),
        rule_views(prio_filter(sorted, orig[i]@.effective_priority())) == rule_views(
            prio_filter(orig, orig[i]@.effective_priority()),
        ),
    ensures
        0 <= r.0 < r.1 < sorted.len(),
        sorted[r.0]@ == orig[i]@,
        sorted[r.1]@ == orig[j]@,
{
    let p = orig[i]@.effective_priority();
    let pred = |x: Rule| x@.effective_priority() == p;
    lemma_filter_rank_take(orig, pred, i);
    lemma_filter_rank_take(orig, pred, j);
    lemma_filter_rank_strict(orig, pred, i, j);
    let k1 = filter_rank(orig, pred, i);
    let k2 = filter_rank(orig, pred, j);
    assert(rule_views(prio_filter(sorted, p)).len() == prio_filter(sorted, p).len());
    assert(rule_views(prio_filter(orig, p)).len() == prio_filter(orig, p).len());
    let idx1 = lemma_filter_index(sorted, pred, k1);
    let idx2 = lemma_filter_index(sorted, pred, k2);
    assert(sorted[idx1]@ == rule_views(prio_filter(sorted, p))[k1]);
    assert(orig[i]@ == rule_views(prio_filter(orig, p))[k1]);
    assert(sorted[idx2]@ == rule_views(prio_filter(sorted, p))[k2]);
    assert(orig[j]@ == rule_views(prio_filter(orig, p))[k2]);
    if idx1 >= idx2 {
        lemma_filter_rank_mono(sorted, pred, idx2, idx1);
        assert(false);
    }
    (idx1, idx2)
}

/// Stability of the enabled-rule ordering, at the indices of the declared
/// rule list: two enabled rules of equal effective priority, declared in a
/// given order, stand - by their models - in that same order in any
/// sequence that preserves every priority class of the enabled
/// subsequence, which is what `enabled_rules` promises of its result.
/// With the result's sortedness by descending effective priority, this is
/// the whole of the stable sort.
pub proof fn lemma_enabled_rules_stable(result: Seq<Rule>, rules: Seq<Rule>, a: int, b: int) -> (r:
    (int, int))
    requires
        0 <= a < b < rules.len(),
        rules[a]@.is_enabled(),
        rules[b]@.is_enabled(),
        rules[a]@.effective_priority() == rules[b]@.effective_priority(),
        forall|p: int| #[trigger] rule_views(prio_filter(result, p)) == rule_views(
            prio_filter(enabled_filter(rules), p),
        ),
    ensures
        0 <= r.0 < r.1 < result.len(),
        result[r.0]@ == rules[a]@,
        result[r.1]@ == rules[b]@,
{
    let en = |x: Rule| x@.is_enabled();
    lemma_filter_rank_take(rules, en, a);
    lemma_filter_rank_take(rules, en, b);
    lemma_filter_rank_strict(rules, en, a, b);
    let ka = filter_rank(rules, en, a);
    let kb = filter_rank(rules, en, b);
    let mid = enabled_filter(rules);
    assert(mid[ka] == rules[a]);
    assert(mid[kb] == rules[b]);
    lemma_stable_order(result, mid, ka, kb)
}

/// Two rule sequences with the same models have priority filters with the
/// same models: which rules a priority class keeps depends on the models
/// alone.
pub proof fn lemma_prio_filter_congruent(a: Seq<Rule>, b: Seq<Rule>, p: int)
    requires
        rule_views(a) == rule_views(b),
    ensures
        rule_views(prio_filter(a, p)) == rule_views(prio_filter(b, p)),
    decreases a.len(),
{
    reveal(Seq::filter);
    assert(rule_views(a).len() == a.len());
    assert(rule_views(b).len() == b.len());
    if a.len() == 0 {
        assert(rule_views(prio_filter(a, p)) =~= rule_views(prio_filter(b, p)));
    } else {
        assert(rule_views(a.drop_last()) =~= rule_views(a).drop_last());
        assert(rule_views(b.drop_last()) =~= rule_views(b).drop_last());
        lemma_prio_filter_congruent(a.drop_last(), b.drop_last(), p);
        assert(a.last()@ == rule_views(a)[a.len() - 1]);
        assert(b.last()@ == rule_views(b)[b.len() - 1]);
        assert(a.last()@ == b.last()@);
        if a.last()@.effective_priority() == p {
            assert(prio_filter(a, p) == prio_filter(a.drop_last(), p).push(a.last()));
            assert(prio_filter(b, p) == prio_filter(b.drop_last(), p).push(b.last()));
            assert(rule_views(prio_filter(a, p)) =~= rule_views(
                prio_filter(a.drop_last(), p),
            ).push(a.last()@));
            assert(rule_views(prio_filter(b, p)) =~= rule_views(
                prio_filter(b.drop_last(), p),
            ).push(b.last()@));
        } else {
            assert(prio_filter(a, p) == prio_filter(a.drop_last(), p));
            assert(prio_filter(b, p) == prio_filter(b.drop_last(), p));
        }
    }
}

/// Insert `r` into the sorted vector `out` directly before the first rule
/// of lower effective priority, keeping the vector sorted and preserving
/// every priority class as a subsequence.
fn insert_rule_sorted(out: &mut Vec<Rule>, r: Rule)
    requires
        sorted_desc(old(out)@),
    ensures
        final(out)@.len() == old(out)@.len() + 1,
        sorted_desc(final(out)@),
        forall|p: int| #[trigger] prio_filter(final(out)@, p)
            == prio_filter(old(out)@.push(r), p),
{
    let pr = r.effective_priority();
    let mut k: usize = 0;
    while k < out.len() && out[k].effective_priority() >= pr
        invariant
            0 <= k <= out@.len(),
            forall|j: int| 0 <= j < k ==> out@[j]@.effective_priority() >= pr as int,
        decreases out@.len() - k,
    {
        k = k + 1;
    }
    let ghost before = out@;
    out.insert(k, r);
    proof {
        let s = before;
        let t = out@;
        assert(t == s.insert(k as int, r));
        assert(t =~= s.subrange(0, k as int) + seq![r] + s.subrange(k as int, s.len() as int));
        // sortedness: everything before index k has priority >= pr, and
        // everything at or after k has priority < pr (by the scan and
        // sortedness of s).
        assert forall|i: int, j: int|
            0 <= i < j < t.len() implies t[i]@.effective_priority() >= t[j]@.effective_priority()
        by {
            if k < s.len() {
                assert(s[k as int]@.effective_priority() < pr as int);
            }
        }
        // stability: each priority class is preserved.
        assert forall|p: int| #[trigger] prio_filter(t, p) == prio_filter(s.push(r), p) by {
            let a = s.subrange(0, k as int);
            let b = s.subrange(k as int, s.len() as int);
            let pred = |x: Rule| x@.effective_priority() == p;
            Seq::filter_distributes_over_add(a + seq![r], b, pred);
            Seq::filter_distributes_over_add(a, seq![r], pred);
            Seq::filter_distributes_over_add(a, b, pred);
            lemma_prio_filter_singleton(r, p);
            lemma_prio_filter_push(s, r, p);
            assert(a + b =~= s);
            if pr as int == p {
                // no rule at or after position k has priority p
                assert(forall|i: int| 0 <= i < b.len() ==>
                    b[i]@.effective_priority() < pr as int);
                lemma_prio_filter_empty(b, p);
                assert(prio_filter(t, p) =~= prio_filter(s, p).push(r));
            } else {
                assert(prio_filter(t, p) =~= prio_filter(s, p));
            }
        }
    }
}

/// Sort rules by effective priority in descending order, stably: rules of
/// equal priority keep their relative order.  This ordering is load-bearing
/// for conflict resolution.
pub fn sort_rules_by_priority(rules: &mut Vec<Rule>)
    ensures
        final(rules)@.len() == old(rules)@.len(),
        sorted_desc(final(rules)@),
        forall|p: int| #[trigger] prio_filter(final(rules)@, p) == prio_filter(old(rules)@, p),
{
    let ghost orig = old(rules)@;
    let ghost mut processed: Seq<Rule> = Seq::empty();
    let mut out: Vec<Rule> = Vec::new();
    proof {
        assert(orig =~= processed + rules@);
        assert forall|p: int| #[trigger] prio_filter(out@, p) == prio_filter(processed, p) by {
            lemma_prio_filter_empty(out@, p);
            lemma_prio_filter_empty(processed, p);
        }
    }
    while rules.len() > 0
        invariant
            orig == processed + rules@,
            sorted_desc(out@),
            out@.len() == processed.len(),
            forall|p: int| #[trigger] prio_filter(out@, p) == prio_filter(processed, p),
        decreases rules@.len(),
    {
        let r = rules.remove(0);
        let ghost rv = r;
        let ghost old_out = out@;
        insert_rule_sorted(&mut out, r);
        proof {
            let old_processed = processed;
            processed = processed.push(rv);
            assert(orig =~= processed + rules@);
            assert forall|p: int| #[trigger] prio_filter(out@, p) == prio_filter(processed, p) by {
                lemma_prio_filter_push(old_processed, rv, p);
                lemma_prio_filter_push(old_out, rv, p);
            }
        }
    }
    proof {
        assert(orig =~= processed);
    }
    *rules = out;
}

} // verus!
