//! The audit log: the structured per-event record, the read-side
//! query/filter engine over a log file's decoded records, the rotation
//! schedule, and per-rule activity statistics.
//!
//! Records live one per line in an append-only file.  Opening, appending
//! to and reading that file belongs to the caller that owns I/O; which
//! records a query keeps, and in which order, is decided here.

use vstd::prelude::*;
use vstd::string::*;
use crate::events::EventDetails;
use crate::matcher::{seq_contains_string, MatcherResults};
use crate::modes::{Decision, PolicyMode, TrustLevel};
use crate::response::ResponseSummary;
use crate::rules::{clone_opt_string, clone_string_vec, GovernanceMetadata, GovernanceMetadataView};
use crate::text;

verus! {

/// The recorded result of one event evaluation.
#[derive(Debug, Clone, Copy, PartialEq, Eq, Structural)]
pub enum Outcome {
    Allow,
    Block,
    Inject,
}

/// Performance data recorded with a log entry.
#[derive(Debug, Clone, Copy, PartialEq, Eq, Structural)]
pub struct LogTiming {
    /// Processing time in milliseconds.
    pub processing_ms: u64,
    /// Rules checked.
    pub rules_evaluated: usize,
}

/// Additional log context.
#[derive(Debug)]
pub struct LogMetadata {
    /// Files injected as context.
    pub injected_files: Option<Vec<String>>,
    /// Validator output, when one ran.
    pub validator_output: Option<String>,
}

/// The mathematical model of `LogMetadata`.
pub struct LogMetadataView {
    pub injected_files: Option<Seq<String>>,
    pub validator_output: Option<String>,
}

impl View for LogMetadata {
    type V = LogMetadataView;

    open spec fn view(&self) -> LogMetadataView {
        LogMetadataView {
            injected_files: match self.injected_files {
                Some(v) => Some(v@),
                None => None,
            },
            validator_output: self.validator_output,
        }
    }
}

impl Clone for LogMetadata {
    /// The copy's model equals the original's.
    fn clone(&self) -> (r: Self)
        ensures
            r@ == self@,
    {
        LogMetadata {
            injected_files: match &self.injected_files {
                Some(v) => Some(clone_string_vec(v)),
                None => None,
            },
            validator_output: clone_opt_string(&self.validator_output),
        }
    }
}

/// Per-rule evaluation detail recorded in debug mode.
#[derive(Debug)]
pub struct RuleEvaluation {
    /// Name of the rule evaluated.
    pub rule_name: String,
    /// Whether the rule matched.
    pub matched: bool,
    /// Individual matcher results, when the debug variant ran.
    pub matcher_results: Option<MatcherResults>,
}

impl Clone for RuleEvaluation {
    /// The copy equals the original.
    fn clone(&self) -> (r: Self)
        ensures
            r == *self,
    {
        RuleEvaluation {
            rule_name: self.rule_name.clone(),
            matched: self.matched,
            matcher_results: self.matcher_results,
        }
    }
}

/// One structured audit record: immutable once written, one per processed
/// event.  Timestamps are microseconds since the Unix epoch.
#[derive(Debug)]
pub struct LogEntry {
    /// Event time, in microseconds since the Unix epoch.
    pub timestamp: i64,
    /// The hook event type's name.
    pub event_type: String,
    /// Session identifier.
    pub session_id: String,
    /// Tool being used.
    pub tool_name: Option<String>,
    /// Names of the rules that matched.
    pub rules_matched: Vec<String>,
    /// Result of evaluation.
    pub outcome: Outcome,
    /// Performance data.
    pub timing: LogTiming,
    /// Additional context.
    pub metadata: Option<LogMetadata>,
    /// Typed event details extracted from the tool payload.
    pub event_details: Option<EventDetails>,
    /// Summary of the response returned to the caller.
    pub response: Option<ResponseSummary>,
    /// The full raw event, serialized (debug mode only).
    pub raw_event: Option<String>,
    /// Per-rule evaluation details (debug mode only).
    pub rule_evaluations: Option<Vec<RuleEvaluation>>,
    /// Policy mode of the primary matched rule.
    pub mode: Option<PolicyMode>,
    /// Priority of the primary matched rule.
    pub priority: Option<i32>,
    /// The derived decision.
    pub decision: Option<Decision>,
    /// Governance metadata of the primary matched rule.
    pub governance: Option<GovernanceMetadata>,
    /// Trust level of the validator script, when a run action was present.
    pub trust_level: Option<TrustLevel>,
}

/// The mathematical model of a `LogEntry`.
pub struct LogEntryView {
    pub timestamp: i64,
    pub event_type: String,
    pub session_id: String,
    pub tool_name: Option<String>,
    pub rules_matched: Seq<String>,
    pub outcome: Outcome,
    pub timing: LogTiming,
    pub metadata: Option<LogMetadataView>,
    pub event_details: Option<EventDetails>,
    pub response: Option<ResponseSummary>,
    pub raw_event: Option<String>,
    pub rule_evaluations: Option<Seq<RuleEvaluation>>,
    pub mode: Option<PolicyMode>,
    pub priority: Option<i32>,
    pub decision: Option<Decision>,
    pub governance: Option<GovernanceMetadataView>,
    pub trust_level: Option<TrustLevel>,
}

impl View for LogEntry {
    type V = LogEntryView;

    open spec fn view(&self) -> LogEntryView {
        LogEntryView {
            timestamp: self.timestamp,
            event_type: self.event_type,
            session_id: self.session_id,
            tool_name: self.tool_name,
            rules_matched: self.rules_matched@,
            outcome: self.outcome,
            timing: self.timing,
            metadata: match self.metadata {
                Some(m) => Some(m@),
                None => None,
            },
            event_details: self.event_details,
            response: self.response,
            raw_event: self.raw_event,
            rule_evaluations: match self.rule_evaluations {
                Some(v) => Some(v@),
                None => None,
            },
            mode: self.mode,
            priority: self.priority,
            decision: self.decision,
            governance: match self.governance {
                Some(g) => Some(g@),
                None => None,
            },
            trust_level: self.trust_level,
        }
    }
}

/// Filters for log queries; an absent filter passes every record.
#[derive(Debug)]
pub struct QueryFilters {
    /// Maximum number of entries to return.
    pub limit: Option<usize>,
    /// Keep records of this session.
    pub session_id: Option<String>,
    /// Keep records of this tool.
    pub tool_name: Option<String>,
    /// Keep records in which this rule matched.
    pub rule_name: Option<String>,
    /// Keep records with this outcome.
    pub outcome: Option<Outcome>,
    /// Keep records at or after this timestamp.
    pub since: Option<i64>,
    /// Keep records at or before this timestamp.
    pub until: Option<i64>,
    /// Keep records with this policy mode.
    pub mode: Option<PolicyMode>,
    /// Keep records with this decision.
    pub decision: Option<Decision>,
}

impl Default for QueryFilters {
    /// No filter set: everything passes, nothing is truncated.
    fn default() -> (r: Self)
        ensures
            r.limit is None,
            r.session_id is None,
            r.tool_name is None,
            r.rule_name is None,
            r.outcome is None,
            r.since is None,
            r.until is None,
            r.mode is None,
            r.decision is None,
    {
        QueryFilters {
            limit: None,
            session_id: None,
            tool_name: None,
            rule_name: None,
            outcome: None,
            since: None,
            until: None,
            mode: None,
            decision: None,
        }
    }
}

impl Clone for QueryFilters {
    /// The copy equals the original.
    fn clone(&self) -> (r: Self)
        ensures
            r == *self,
    {
        QueryFilters {
            limit: self.limit,
            session_id: clone_opt_string(&self.session_id),
            tool_name: clone_opt_string(&self.tool_name),
            rule_name: clone_opt_string(&self.rule_name),
            outcome: self.outcome,
            since: self.since,
            until: self.until,
            mode: self.mode,
            decision: self.decision,
        }
    }
}

/// A record passes a set of filters: every present filter agrees with it.
pub open spec fn spec_matches_filters(e: LogEntryView, f: QueryFilters) -> bool {
    &&& match f.session_id {
        Some(s) => e.session_id@ == s@,
        None => true,
    }
    &&& match f.tool_name {
        Some(t) => e.tool_name matches Some(et) && et@ == t@,
        None => true,
    }
    &&& match f.rule_name {
        Some(rn) => seq_contains_string(e.rules_matched, rn@),
        None => true,
    }
    &&& match f.outcome {
        Some(o) => e.outcome == o,
        None => true,
    }
    &&& match f.since {
        Some(ts) => e.timestamp >= ts,
        None => true,
    }
    &&& match f.until {
        Some(ts) => e.timestamp <= ts,
        None => true,
    }
    &&& match f.mode {
        Some(m) => e.mode == Some(m),
        None => true,
    }
    &&& match f.decision {
        Some(d) => e.decision == Some(d),
        None => true,
    }
}

/// Whether a record passes a set of filters.
pub fn matches_filters(entry: &LogEntry, filters: &QueryFilters) -> (r: bool)
    ensures
        r == spec_matches_filters(entry@, *filters),
{
    if let Some(s) = &filters.session_id {
        if !text::str_eq(entry.session_id.as_str(), s.as_str()) {
            return false;
        }
    }
    if let Some(t) = &filters.tool_name {
        match &entry.tool_name {
            Some(et) => if !text::str_eq(et.as_str(), t.as_str()) {
                return false;
            },
            None => {
                return false;
            },
        }
    }
    if let Some(rn) = &filters.rule_name {
        let mut found = false;
        let mut i: usize = 0;
        while i < entry.rules_matched.len()
            invariant
                0 <= i <= entry.rules_matched@.len(),
                found <==> exists|j: int| 0 <= j < i && entry.rules_matched@[j]@ == rn@,
            decreases entry.rules_matched@.len() - i,
        {
            if text::str_eq(entry.rules_matched[i].as_str(), rn.as_str()) {
                found = true;
            }
            i = i + 1;
        }
        if !found {
            return false;
        }
    }
    if let Some(o) = filters.outcome {
        if entry.outcome != o {
            return false;
        }
    }
    if let Some(ts) = filters.since {
        if entry.timestamp < ts {
            return false;
        }
    }
    if let Some(ts) = filters.until {
        if entry.timestamp > ts {
            return false;
        }
    }
    if let Some(m) = filters.mode {
        match entry.mode {
            Some(em) => if em != m {
                return false;
            },
            None => {
                return false;
            },
        }
    }
    if let Some(d) = filters.decision {
        match entry.decision {
            Some(ed) => if ed != d {
                return false;
            },
            None => {
                return false;
            },
        }
    }
    true
}

/// Records in non-increasing timestamp order: newest first.
pub open spec fn sorted_ts_desc(s: Seq<LogEntry>) -> bool {
    forall|i: int, j: int| 0 <= i < j < s.len() ==> s[i].timestamp >= s[j].timestamp
}

/// The subsequence of records with a given timestamp.
pub open spec fn ts_filter(s: Seq<LogEntry>, t: int) -> Seq<LogEntry> {
    s.filter(|e: LogEntry| e.timestamp == t)
}

/// Insert a record into a newest-first sequence, after every record with
/// the same or a newer timestamp.
pub open spec fn ts_insert(s: Seq<LogEntry>, e: LogEntry) -> Seq<LogEntry>
    decreases s.len(),
{
    if s.len() == 0 {
        seq![e]
    } else if s[0].timestamp >= e.timestamp {
        seq![s[0]] + ts_insert(s.subrange(1, s.len() as int), e)
    } else {
        seq![e] + s
    }
}

/// The stable newest-first sort of a record sequence: records of equal
/// timestamp keep their original order.
pub open spec fn ts_sort(s: Seq<LogEntry>) -> Seq<LogEntry>
    decreases s.len(),
{
    if s.len() == 0 {
        s
    } else {
        ts_insert(ts_sort(s.drop_last()), s.last())
    }
}

/// Inserting at the scan position is inserting at the first index holding
/// an older record.
proof fn lemma_ts_insert_at(s: Seq<LogEntry>, e: LogEntry, k: int)
    requires
        0 <= k <= s.len(),
        forall|j: int| 0 <= j < k ==> s[j].timestamp >= e.timestamp,
        k < s.len() ==> s[k].timestamp < e.timestamp,
    ensures
        ts_insert(s, e) == s.insert(k, e),
    decreases s.len(),
{
    if s.len() == 0 {
        assert(ts_insert(s, e) =~= s.insert(0, e));
    } else if k == 0 {
        assert(ts_insert(s, e) =~= s.insert(0, e));
    } else {
        lemma_ts_insert_at(s.subrange(1, s.len() as int), e, k - 1);
        assert(ts_insert(s, e) =~= s.insert(k, e));
    }
}

/// Append one record to the accumulated record prefix of a filter.
proof fn lemma_keep_filter_push(s: Seq<LogEntry>, e: LogEntry, f: QueryFilters)
    ensures
        spec_matches_filters(e@, f) ==> s.push(e).filter(
            |x: LogEntry| spec_matches_filters(x@, f),
        ) == s.filter(|x: LogEntry| spec_matches_filters(x@, f)).push(e),
        !spec_matches_filters(e@, f) ==> s.push(e).filter(
            |x: LogEntry| spec_matches_filters(x@, f),
        ) == s.filter(|x: LogEntry| spec_matches_filters(x@, f)),
{
    reveal(Seq::filter);
    assert(s.push(e).drop_last() =~= s);
    assert(s.push(e).last() == e);
}

/// Filtering a sequence by timestamp distributes over appending one record.
proof fn lemma_ts_filter_push(s: Seq<LogEntry>, e: LogEntry, t: int)
    ensures
        e.timestamp == t ==> ts_filter(s.push(e), t) == ts_filter(s, t).push(e),
        e.timestamp != t ==> ts_filter(s.push(e), t) == ts_filter(s, t),
{
    reveal(Seq::filter);
    assert(s.push(e).drop_last() =~= s);
    assert(s.push(e).last() == e);
}

/// A sequence with no record at timestamp `t` filters to nothing.
proof fn lemma_ts_filter_empty(s: Seq<LogEntry>, t: int)
    requires
        forall|i: int| 0 <= i < s.len() ==> s[i].timestamp != t,
    ensures
        ts_filter(s, t) == Seq::<LogEntry>::empty(),
    decreases s.len(),
{
    reveal(Seq::filter);
    if s.len() > 0 {
        lemma_ts_filter_empty(s.drop_last(), t);
    }
}

/// Filtering a one-record sequence by timestamp.
proof fn lemma_ts_filter_singleton(e: LogEntry, t: int)
    ensures
        e.timestamp == t ==> ts_filter(seq![e], t) == seq![e],
        e.timestamp != t ==> ts_filter(seq![e], t) == Seq::<LogEntry>::empty(),
{
    reveal_with_fuel(Seq::filter, 2);
    assert(seq![e].drop_last() =~= Seq::<LogEntry>::empty());
    assert(Seq::<LogEntry>::empty().filter(|x: LogEntry| x.timestamp == t)
        =~= Seq::<LogEntry>::empty());
}

/// The first position in a newest-first sequence holding a record older
/// than `e`, or the length when there is none.
proof fn find_ts_insert_point(s: Seq<LogEntry>, e: LogEntry) -> (k: int)
    requires
        sorted_ts_desc(s),
    ensures
        0 <= k <= s.len(),
        forall|j: int| 0 <= j < k ==> s[j].timestamp >= e.timestamp,
        k < s.len() ==> s[k].timestamp < e.timestamp,
    decreases s.len(),
{
    if s.len() == 0 {
        0
    } else if s[0].timestamp < e.timestamp {
        0
    } else {
        let tail = s.subrange(1, s.len() as int);
        assert forall|i: int, j: int|
            0 <= i < j < tail.len() implies tail[i].timestamp >= tail[j].timestamp by {
            assert(tail[i] == s[i + 1]);
            assert(tail[j] == s[j + 1]);
        }
        let k2 = find_ts_insert_point(tail, e);
        assert forall|j: int| 0 <= j < k2 + 1 implies s[j].timestamp >= e.timestamp by {
            if j >= 1 {
                assert(tail[j - 1] == s[j]);
            }
        }
        if k2 + 1 < s.len() {
            assert(tail[k2] == s[k2 + 1]);
        }
        k2 + 1
    }
}

/// The stable sort sorts: its result is newest-first, keeps every
/// timestamp class unchanged, and has the input's length.
pub proof fn lemma_ts_sort_props(s: Seq<LogEntry>)
    ensures
        ts_sort(s).len() == s.len(),
        sorted_ts_desc(ts_sort(s)),
        forall|t: int| #[trigger] ts_filter(ts_sort(s), t) == ts_filter(s, t),
    decreases s.len(),
{
    if s.len() == 0 {
        assert forall|t: int| #[trigger] ts_filter(ts_sort(s), t) == ts_filter(s, t) by {
            lemma_ts_filter_empty(s, t);
        }
    } else {
        let s0 = s.drop_last();
        let e = s.last();
        lemma_ts_sort_props(s0);
        let t0 = ts_sort(s0);
        let k = find_ts_insert_point(t0, e);
        lemma_ts_insert_at(t0, e, k);
        let out = t0.insert(k, e);
        assert(ts_sort(s) == out);
        assert(out =~= t0.subrange(0, k) + seq![e] + t0.subrange(k, t0.len() as int));
        assert forall|i: int, j: int|
            0 <= i < j < out.len() implies out[i].timestamp >= out[j].timestamp by {
            if k < t0.len() {
                assert(t0[k].timestamp < e.timestamp);
            }
        }
        assert forall|t: int| #[trigger] ts_filter(ts_sort(s), t) == ts_filter(s, t) by {
            let a = t0.subrange(0, k);
            let b = t0.subrange(k, t0.len() as int);
            let pred = |x: LogEntry| x.timestamp == t;
            Seq::filter_distributes_over_add(a + seq![e], b, pred);
            Seq::filter_distributes_over_add(a, seq![e], pred);
            Seq::filter_distributes_over_add(a, b, pred);
            lemma_ts_filter_singleton(e, t);
            lemma_ts_filter_push(s0, e, t);
            assert(a + b =~= t0);
            assert(s0.push(e) =~= s);
            if e.timestamp == t {
                assert(forall|i: int| 0 <= i < b.len() ==> b[i].timestamp < e.timestamp);
                lemma_ts_filter_empty(b, t);
                assert(ts_filter(out, t) =~= ts_filter(t0, t).push(e));
            } else {
                assert(ts_filter(out, t) =~= ts_filter(t0, t));
            }
        }
    }
}

/// Every record of a filtered sequence stands in the original.
pub proof fn lemma_filter_element_of(s: Seq<LogEntry>, pred: spec_fn(LogEntry) -> bool, i: int)
    requires
        0 <= i < s.filter(pred).len(),
    ensures
        exists|j: int| 0 <= j < s.len() && s[j] == s.filter(pred)[i],
    decreases s.len(),
{
    reveal(Seq::filter);
    if s.len() > 0 {
        if i < s.drop_last().filter(pred).len() {
            lemma_filter_element_of(s.drop_last(), pred, i);
            let j = choose|j: int|
                0 <= j < s.drop_last().len() && s.drop_last()[j] == s.drop_last().filter(pred)[i];
            assert(s[j] == s.filter(pred)[i]);
        } else {
            assert(s[s.len() - 1] == s.filter(pred)[i]);
        }
    }
}

/// The read side of the audit log: a query engine over the records decoded
/// from the file at a fixed path.
#[derive(Debug)]
pub struct LogQuery {
    /// The log file the records come from, relative to the user's
    /// configuration directory when not absolute.
    pub log_path: String,
}

/// The well-known log file location under the user's configuration
/// directory.  The layout is the conventional one - a hidden
/// configuration directory holding `hooks.yaml` beside `logs/cch.log` -
/// under this engine's own directory name.
pub fn default_log_relpath() -> (r: String)
    ensures
        r@ == ".cch/logs/cch.log"@,
{
    String::from_str(".cch/logs/cch.log")
}

impl LogQuery {
    /// A query over the records of the well-known log file.
    pub fn new() -> (r: LogQuery)
        ensures
            r.log_path@ == ".cch/logs/cch.log"@,
    {
        LogQuery { log_path: default_log_relpath() }
    }

    /// A query over the records of the given log file.
    pub fn with_path(path: String) -> (r: LogQuery)
        ensures
            r.log_path == path,
    {
        LogQuery { log_path: path }
    }

    /// Run a query over the file's decoded records, given oldest first as
    /// they stand in the file: keep the records that pass the filters,
    /// order them newest first - stably, so records of equal timestamp
    /// keep file order - and then truncate to the limit, if one is set.
    pub fn query(&self, records: Vec<LogEntry>, filters: &QueryFilters) -> (r: Vec<LogEntry>)
        ensures
            ({
                let kept = records@.filter(|x: LogEntry| spec_matches_filters(x@, *filters));
                let sorted = ts_sort(kept);
                &&& sorted_ts_desc(r@)
                &&& forall|i: int|
                    0 <= i < r@.len() ==> spec_matches_filters(#[trigger] r@[i]@, *filters)
                &&& (filters.limit is None ==> r@ == sorted)
                &&& (filters.limit matches Some(l) ==> if l < sorted.len() {
                    r@ == sorted.subrange(0, l as int)
                } else {
                    r@ == sorted
                })
            }),
    {
        let ghost all = records@;
        let ghost pred = |x: LogEntry| spec_matches_filters(x@, *filters);
        let ghost mut processed: Seq<LogEntry> = Seq::empty();
        let mut rest = records;
        let mut out: Vec<LogEntry> = Vec::new();
        proof {
            reveal(Seq::filter);
            assert(all =~= processed + rest@);
        }
        while rest.len() > 0
            invariant
                all == processed + rest@,
                pred == |x: LogEntry| spec_matches_filters(x@, *filters),
                out@ == ts_sort(processed.filter(pred)),
                sorted_ts_desc(out@),
                forall|i: int| 0 <= i < out@.len() ==> spec_matches_filters(
                    #[trigger] out@[i]@,
                    *filters,
                ),
            decreases rest@.len(),
        {
            let e = rest.remove(0);
            let ghost ev = e;
            let keep = matches_filters(&e, filters);
            if keep {
                let pr = e.timestamp;
                let mut k: usize = 0;
                while k < out.len() && out[k].timestamp >= pr
                    invariant
                        0 <= k <= out@.len(),
                        pr == ev.timestamp,
                        forall|j: int| 0 <= j < k ==> out@[j].timestamp >= pr,
                    decreases out@.len() - k,
                {
                    k = k + 1;
                }
                let ghost before = out@;
                out.insert(k, e);
                proof {
                    lemma_ts_insert_at(before, ev, k as int);
                    assert(out@ == ts_insert(before, ev));
                }
            }
            proof {
                let old_processed = processed;
                processed = processed.push(ev);
                assert(all =~= processed + rest@);
                lemma_keep_filter_push(old_processed, ev, *filters);
                if spec_matches_filters(ev@, *filters) {
                    assert(processed.filter(pred).drop_last() =~= old_processed.filter(pred));
                    assert(ts_sort(processed.filter(pred)) == ts_insert(
                        ts_sort(old_processed.filter(pred)),
                        ev,
                    ));
                }
            }
        }
        proof {
            assert(all =~= processed);
        }
        match filters.limit {
            Some(l) => {
                if l < out.len() {
                    out.truncate(l);
                }
                out
            },
            None => out,
        }
    }
}

/// A query with no filters and no limit returns every record ever
/// appended, newest first, records of equal timestamp in file order; being
/// a function of the file's records alone, repeated calls against an
/// unmodified file return the same sequence.
pub proof fn lemma_query_unfiltered_complete(records: Seq<LogEntry>, f: QueryFilters)
    requires
        f.session_id is None,
        f.tool_name is None,
        f.rule_name is None,
        f.outcome is None,
        f.since is None,
        f.until is None,
        f.mode is None,
        f.decision is None,
    ensures
        records.filter(|x: LogEntry| spec_matches_filters(x@, f)) == records,
        ts_sort(records.filter(|x: LogEntry| spec_matches_filters(x@, f))).len() == records.len(),
        forall|i: int| 0 <= i < records.len() ==> ts_sort(records.filter(
            |x: LogEntry| spec_matches_filters(x@, f),
        )).contains(#[trigger] records[i]),
    decreases records.len(),
{
    reveal(Seq::filter);
    let pred = |x: LogEntry| spec_matches_filters(x@, f);
    if records.len() == 0 {
        assert(records.filter(pred) =~= records);
    } else {
        lemma_query_unfiltered_complete(records.drop_last(), f);
        assert(spec_matches_filters(records.last()@, f));
        assert(records.filter(pred) =~= records);
    }
    lemma_ts_sort_props(records.filter(pred));
    let sorted = ts_sort(records.filter(pred));
    assert forall|i: int| 0 <= i < records.len() implies sorted.contains(
        #[trigger] records[i],
    ) by {
        let t = records[i].timestamp as int;
        assert(ts_filter(sorted, t) == ts_filter(records, t));
        let ki = records.filter(|x: LogEntry| x.timestamp == t).index_of(records[i]);
        assert(records.filter(|x: LogEntry| x.timestamp == t).contains(records[i])) by {
            Seq::lemma_filter_contains(records, |x: LogEntry| x.timestamp == t, i);
        }
        assert(0 <= ki < ts_filter(sorted, t).len());
        assert(ts_filter(sorted, t)[ki] == records[i]);
        lemma_filter_element_of(sorted, |x: LogEntry| x.timestamp == t, ki);
        let j = choose|j: int|
            0 <= j < sorted.len() && sorted[j] == ts_filter(sorted, t)[ki];
        assert(sorted[j] == records[i]);
    }
}

/// Appending a record and querying with filters it passes, with no limit,
/// returns a sequence in which the appended record stands: what the log
/// takes in, a matching query gives back.
pub proof fn lemma_query_round_trip(records: Seq<LogEntry>, e: LogEntry, f: QueryFilters)
    requires
        spec_matches_filters(e@, f),
    ensures
        ts_sort(records.push(e).filter(|x: LogEntry| spec_matches_filters(x@, f))).contains(e),
{
    let pred = |x: LogEntry| spec_matches_filters(x@, f);
    let kept = records.push(e).filter(pred);
    lemma_keep_filter_push(records, e, f);
    assert(kept == records.filter(pred).push(e));
    lemma_ts_sort_props(kept);
    let t = e.timestamp as int;
    let sorted = ts_sort(kept);
    assert(ts_filter(sorted, t) == ts_filter(kept, t));
    assert(kept.contains(e)) by {
        assert(kept[kept.len() - 1] == e);
    }
    assert(ts_filter(kept, t).contains(e)) by {
        Seq::lemma_filter_contains(kept, |x: LogEntry| x.timestamp == t, kept.len() - 1);
    }
    let ki = ts_filter(kept, t).index_of(e);
    assert(ts_filter(sorted, t)[ki] == e);
    lemma_filter_element_of(sorted, |x: LogEntry| x.timestamp == t, ki);
    let j = choose|j: int| 0 <= j < sorted.len() && sorted[j] == ts_filter(sorted, t)[ki];
    assert(sorted[j] == e);
}

/// The rotation policy for the audit log: a size threshold and a retained
/// backup count.  Rotation is invoked explicitly by the collaborator that
/// owns the file, never by normal writes; what it renames is decided here.
#[derive(Debug, Clone, Copy, PartialEq, Eq, Structural)]
pub struct LogRotator {
    /// Rotate once the current file reaches this many bytes.
    pub max_size_bytes: u64,
    /// How many numbered backup files to keep.
    pub max_files: usize,
}

impl LogRotator {
    /// A rotator with the given threshold and backup count.
    pub fn new(max_size_bytes: u64, max_files: usize) -> (r: Self)
        ensures
            r.max_size_bytes == max_size_bytes,
            r.max_files == max_files,
    {
        LogRotator { max_size_bytes, max_files }
    }

    /// Whether a log file of the given size is due for rotation.
    pub fn rotation_needed(&self, current_size: u64) -> (r: bool)
        ensures
            r == (current_size >= self.max_size_bytes),
    {
        current_size >= self.max_size_bytes
    }
}

impl Default for LogRotator {
    /// Ten megabytes, five backups.
    fn default() -> (r: Self)
        ensures
            r.max_size_bytes == 10485760,
            r.max_files == 5,
    {
        LogRotator { max_size_bytes: 10485760, max_files: 5 }
    }
}

/// The name of the `i`-th numbered backup of a log file.
pub open spec fn spec_numbered(path: Seq<char>, i: nat) -> Seq<char> {
    path + "."@ + text::dec_seq(i)
}

fn numbered_name(path: &str, i: u64) -> (r: String)
    ensures
        r@ == spec_numbered(path@, i as nat),
{
    let mut m = path.to_owned();
    m.append(".");
    let digits = text::dec_string(i);
    m.append(digits.as_str());
    proof {
        assert(m@ =~= spec_numbered(path@, i as nat));
    }
    m
}

impl LogRotator {
    /// The rename schedule for one rotation of the file at `log_path`: each
    /// numbered backup moves one number up, oldest first, and the current
    /// file becomes backup number one.  The caller performs each rename
    /// whose source exists, in order.
    pub fn rotation_renames(&self, log_path: &str) -> (r: Vec<(String, String)>)
        ensures
            self.max_files >= 1 ==> r@.len() == self.max_files,
            self.max_files == 0 ==> r@.len() == 1,
            forall|idx: int| 0 <= idx < r@.len() - 1 ==> {
                &&& (#[trigger] r@[idx]).0@ == spec_numbered(
                    log_path@,
                    (self.max_files - 1 - idx) as nat,
                )
                &&& r@[idx].1@ == spec_numbered(log_path@, (self.max_files - idx) as nat)
            },
            r@[r@.len() - 1].0@ == log_path@,
            r@[r@.len() - 1].1@ == spec_numbered(log_path@, 1),
    {
        let mut out: Vec<(String, String)> = Vec::new();
        let mut i: usize = if self.max_files >= 1 {
            self.max_files - 1
        } else {
            0
        };
        while i >= 1
            invariant
                i <= self.max_files,
                i + out@.len() == if self.max_files >= 1 {
                    (self.max_files - 1) as int
                } else {
                    0
                },
                forall|idx: int| 0 <= idx < out@.len() ==> {
                    &&& (#[trigger] out@[idx]).0@ == spec_numbered(
                        log_path@,
                        (self.max_files - 1 - idx) as nat,
                    )
                    &&& out@[idx].1@ == spec_numbered(log_path@, (self.max_files - idx) as nat)
                },
            decreases i,
        {
            let from = numbered_name(log_path, i as u64);
            let to = numbered_name(log_path, (i + 1) as u64);
            out.push((from, to));
            i = i - 1;
        }
        let current = log_path.to_owned();
        let first_backup = numbered_name(log_path, 1);
        out.push((current, first_backup));
        out
    }
}

/// How often a rule's matches ended in each decision, over a set of
/// records in which the rule matched.
#[derive(Debug, Clone, Copy, PartialEq, Eq, Structural)]
pub struct ActivityStats {
    /// How many records there are.
    pub total_triggers: usize,
    /// How many were decided `Blocked`.
    pub blocked: usize,
    /// How many were decided `Warned`.
    pub warned: usize,
    /// How many were decided `Audited`.
    pub audited: usize,
    /// How many were decided `Allowed`.
    pub allowed: usize,
    /// The newest record's timestamp, when there is one.
    pub last_trigger: Option<i64>,
}

/// How many records carry the given decision.
pub open spec fn count_decision(s: Seq<LogEntry>, d: Decision) -> int
    decreases s.len(),
{
    if s.len() == 0 {
        0
    } else {
        count_decision(s.drop_last(), d) + if s.last().decision == Some(d) {
            1int
        } else {
            0int
        }
    }
}

/// Summarise a rule's recent activity from the records of its matches,
/// newest first as `query` returns them: the total, the count of each
/// decision, and the newest timestamp.
pub fn activity_stats(entries: &Vec<LogEntry>) -> (r: ActivityStats)
    ensures
        r.total_triggers == entries@.len(),
        r.blocked == count_decision(entries@, Decision::Blocked),
        r.warned == count_decision(entries@, Decision::Warned),
        r.audited == count_decision(entries@, Decision::Audited),
        r.allowed == count_decision(entries@, Decision::Allowed),
        entries@.len() == 0 ==> r.last_trigger is None,
        entries@.len() > 0 ==> r.last_trigger == Some(entries@[0].timestamp),
{
    let total_triggers = entries.len();
    let mut blocked: usize = 0;
    let mut warned: usize = 0;
    let mut audited: usize = 0;
    let mut allowed: usize = 0;
    let mut i: usize = 0;
    while i < entries.len()
        invariant
            0 <= i <= entries@.len(),
            blocked == count_decision(entries@.subrange(0, i as int), Decision::Blocked),
            warned == count_decision(entries@.subrange(0, i as int), Decision::Warned),
            audited == count_decision(entries@.subrange(0, i as int), Decision::Audited),
            allowed == count_decision(entries@.subrange(0, i as int), Decision::Allowed),
            blocked <= i && warned <= i && audited <= i && allowed <= i,
        decreases entries@.len() - i,
    {
        proof {
            assert(entries@.subrange(0, i + 1).drop_last() =~= entries@.subrange(0, i as int));
            assert(entries@.subrange(0, i + 1).last() == entries@[i as int]);
        }
        match entries[i].decision {
            Some(Decision::Blocked) => {
                blocked = blocked + 1;
            },
            Some(Decision::Warned) => {
                warned = warned + 1;
            },
            Some(Decision::Audited) => {
                audited = audited + 1;
            },
            Some(Decision::Allowed) => {
                allowed = allowed + 1;
            },
            None => {},
        }
        i = i + 1;
    }
    proof {
        assert(entries@.subrange(0, entries@.len() as int) =~= entries@);
    }
    let last_trigger = if entries.len() > 0 {
        Some(entries[0].timestamp)
    } else {
        None
    };
    ActivityStats { total_triggers, blocked, warned, audited, allowed, last_trigger }
}

} // verus!
