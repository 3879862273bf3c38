//! The rule matcher: a pure predicate deciding whether a rule applies to an
//! event, with a debug variant that records per-criterion detail.
//!
//! Each present criterion must pass; an absent criterion always passes; a
//! present criterion whose required event field is absent fails the rule
//! (closed world: missing data never matches an active constraint).  A
//! matcher pattern that does not compile makes its criterion false, so a
//! rule with a malformed pattern silently never fires.

use vstd::prelude::*;
use crate::events::{spec_event_type_name, Event};
use crate::pattern::{match_pattern, regex_match, regex_ok};
use crate::rules::{Matchers, MatchersView, Rule};
use crate::text;

verus! {

/// Some string in `s` reads `t`.
pub open spec fn seq_contains_string(s: Seq<String>, t: Seq<char>) -> bool {
    exists|i: int| 0 <= i < s.len() && s[i]@ == t
}

/// The tool-name criterion: absent passes; present requires the event's
/// tool name to be listed.
pub open spec fn tools_criterion(e: Event, m: MatchersView) -> bool {
    match m.tools {
        Some(ts) => match e.tool_name {
            Some(t) => seq_contains_string(ts, t@),
            None => false,
        },
        None => true,
    }
}

/// The command criterion: absent passes; present requires a command string
/// in the payload that the pattern compiles against and matches.
pub open spec fn command_criterion(e: Event, m: MatchersView) -> bool {
    match m.command_match {
        Some(p) => match e.tool_input {
            Some(ti) => match ti.command {
                Some(c) => regex_ok(p@) && regex_match(p@, c@),
                None => false,
            },
            None => false,
        },
        None => true,
    }
}

/// The extension criterion: absent passes; present requires a file path in
/// the payload whose normalized extension, leading dot included, is listed.
pub open spec fn extensions_criterion(e: Event, m: MatchersView) -> bool {
    match m.extensions {
        Some(exts) => match e.tool_input {
            Some(ti) => match ti.file_path {
                Some(fp) => seq_contains_string(exts, text::spec_ext_with_dot(fp@)),
                None => false,
            },
            None => false,
        },
        None => true,
    }
}

/// One directory pattern matches a path: after stripping trailing `/**` or
/// `/*` glob suffixes, the remainder occurs in the path as a substring.
/// This is intentionally coarse containment, not full glob semantics.
pub open spec fn dir_match_one(fp: Seq<char>, dir: Seq<char>) -> bool {
    text::contains_seq(fp, text::strip_repeat_suffix(dir, "/**"@)) || text::contains_seq(
        fp,
        text::strip_repeat_suffix(dir, "/*"@),
    )
}

/// Some directory pattern in `dirs` matches the path `fp`.
pub open spec fn seq_dir_match(dirs: Seq<String>, fp: Seq<char>) -> bool {
    exists|i: int| 0 <= i < dirs.len() && dir_match_one(fp, dirs[i]@)
}

/// The directory criterion: absent passes; present requires a file path in
/// the payload that one of the directory patterns matches.
pub open spec fn directories_criterion(e: Event, m: MatchersView) -> bool {
    match m.directories {
        Some(dirs) => match e.tool_input {
            Some(ti) => match ti.file_path {
                Some(fp) => seq_dir_match(dirs, fp@),
                None => false,
            },
            None => false,
        },
        None => true,
    }
}

/// The operation criterion: absent passes; present requires the event's
/// type name to be listed.
pub open spec fn operations_criterion(e: Event, m: MatchersView) -> bool {
    match m.operations {
        Some(ops) => seq_contains_string(ops, spec_event_type_name(e.event_type)),
        None => true,
    }
}

/// A rule applies to an event exactly when every present criterion passes.
pub open spec fn spec_matches(e: Event, m: MatchersView) -> bool {
    &&& tools_criterion(e, m)
    &&& command_criterion(e, m)
    &&& extensions_criterion(e, m)
    &&& directories_criterion(e, m)
    &&& operations_criterion(e, m)
}

/// Whether some string in `v` reads `s`.
fn vec_contains_str(v: &Vec<String>, s: &str) -> (r: bool)
    ensures
        r == seq_contains_string(v@, s@),
{
    let mut i: usize = 0;
    while i < v.len()
        invariant
            0 <= i <= v@.len(),
            forall|j: int| 0 <= j < i ==> v@[j]@ != s@,
        decreases v@.len() - i,
    {
        if text::str_eq(v[i].as_str(), s) {
            return true;
        }
        i = i + 1;
    }
    false
}

fn check_tools(event: &Event, matchers: &Matchers) -> (r: bool)
    ensures
        r == tools_criterion(*event, matchers@),
{
    match &matchers.tools {
        Some(ts) => match &event.tool_name {
            Some(t) => vec_contains_str(ts, t.as_str()),
            None => false,
        },
        None => true,
    }
}

fn check_command(event: &Event, matchers: &Matchers) -> (r: bool)
    ensures
        r == command_criterion(*event, matchers@),
{
    match &matchers.command_match {
        Some(p) => match &event.tool_input {
            Some(ti) => match &ti.command {
                Some(c) => match match_pattern(p.as_str(), c.as_str()) {
                    Some(b) => b,
                    None => false,
                },
                None => false,
            },
            None => false,
        },
        None => true,
    }
}

fn check_extensions(event: &Event, matchers: &Matchers) -> (r: bool)
    ensures
        r == extensions_criterion(*event, matchers@),
{
    match &matchers.extensions {
        Some(exts) => match &event.tool_input {
            Some(ti) => match &ti.file_path {
                Some(fp) => {
                    let ext = text::ext_with_dot(fp.as_str());
                    vec_contains_str(exts, ext.as_str())
                },
                None => false,
            },
            None => false,
        },
        None => true,
    }
}

fn check_directories(event: &Event, matchers: &Matchers) -> (r: bool)
    ensures
        r == directories_criterion(*event, matchers@),
{
    match &matchers.directories {
        Some(dirs) => match &event.tool_input {
            Some(ti) => match &ti.file_path {
                Some(fp) => {
                    proof {
                        reveal_strlit("/**");
                        reveal_strlit("/*");
                    }
                    let mut i: usize = 0;
                    while i < dirs.len()
                        invariant
                            0 <= i <= dirs@.len(),
                            forall|j: int| 0 <= j < i ==> !dir_match_one(fp@, dirs@[j]@),
                            "/**"@.len() > 0,
                            "/*"@.len() > 0,
                            matchers.directories == Some(*dirs),
                            event.tool_input matches Some(ti) && ti.file_path == Some(*fp),
                        decreases dirs@.len() - i,
                    {
                        let stripped_all = text::trim_end_matches(dirs[i].as_str(), "/**");
                        let stripped_one = text::trim_end_matches(dirs[i].as_str(), "/*");
                        let hit_all = text::contains_sub(fp.as_str(), stripped_all.as_str());
                        let hit_one = text::contains_sub(fp.as_str(), stripped_one.as_str());
                        if hit_all || hit_one {
                            proof {
                                assert(dir_match_one(fp@, dirs@[i as int]@));
                                assert(seq_dir_match(dirs@, fp@));
                            }
                            return true;
                        }
                        i = i + 1;
                    }
                    false
                },
                None => false,
            },
            None => false,
        },
        None => true,
    }
}

fn check_operations(event: &Event, matchers: &Matchers) -> (r: bool)
    ensures
        r == operations_criterion(*event, matchers@),
{
    match &matchers.operations {
        Some(ops) => vec_contains_str(ops, event.event_type.as_str()),
        None => true,
    }
}

/// Whether a rule matches the given event.
pub fn matches_rule(event: &Event, rule: &Rule) -> (r: bool)
    ensures
        r == spec_matches(*event, rule@.matchers),
{
    if !check_tools(event, &rule.matchers) {
        return false;
    }
    if !check_command(event, &rule.matchers) {
        return false;
    }
    if !check_extensions(event, &rule.matchers) {
        return false;
    }
    if !check_directories(event, &rule.matchers) {
        return false;
    }
    if !check_operations(event, &rule.matchers) {
        return false;
    }
    true
}

/// Per-criterion results recorded in debug mode: a field is present exactly
/// when its criterion is present on the rule.
#[derive(Debug, Clone, Copy, PartialEq, Eq, Structural)]
pub struct MatcherResults {
    /// Whether the tools criterion passed.
    pub tools_matched: Option<bool>,
    /// Whether the extensions criterion passed.
    pub extensions_matched: Option<bool>,
    /// Whether the directories criterion passed.
    pub directories_matched: Option<bool>,
    /// Whether the command pattern criterion passed.
    pub command_match_matched: Option<bool>,
    /// Whether the operations criterion passed.
    pub operations_matched: Option<bool>,
}

impl Default for MatcherResults {
    /// No criterion evaluated.
    fn default() -> (r: Self)
        ensures
            r.tools_matched is None,
            r.extensions_matched is None,
            r.directories_matched is None,
            r.command_match_matched is None,
            r.operations_matched is None,
    {
        MatcherResults {
            tools_matched: None,
            extensions_matched: None,
            directories_matched: None,
            command_match_matched: None,
            operations_matched: None,
        }
    }
}

/// Whether a rule matches the given event, with per-criterion detail.
/// Unlike `matches_rule`, every present criterion is evaluated (no
/// short-circuit), so the detail is complete; the verdict is the same.
pub fn matches_rule_with_debug(event: &Event, rule: &Rule) -> (r: (bool, Option<MatcherResults>))
    ensures
        r.0 == spec_matches(*event, rule@.matchers),
        r.1 matches Some(mr) && {
            let m = rule@.matchers;
            &&& mr.tools_matched == (if m.tools is Some {
                Some(tools_criterion(*event, m))
            } else {
                Option::<bool>::None
            })
            &&& mr.extensions_matched == (if m.extensions is Some {
                Some(extensions_criterion(*event, m))
            } else {
                Option::<bool>::None
            })
            &&& mr.directories_matched == (if m.directories is Some {
                Some(directories_criterion(*event, m))
            } else {
                Option::<bool>::None
            })
            &&& mr.command_match_matched == (if m.command_match is Some {
                Some(command_criterion(*event, m))
            } else {
                Option::<bool>::None
            })
            &&& mr.operations_matched == (if m.operations is Some {
                Some(operations_criterion(*event, m))
            } else {
                Option::<bool>::None
            })
        },
{
    let matchers = &rule.matchers;
    let tools_matched = if matchers.tools.is_some() {
        Some(check_tools(event, matchers))
    } else {
        None
    };
    let extensions_matched = if matchers.extensions.is_some() {
        Some(check_extensions(event, matchers))
    } else {
        None
    };
    let directories_matched = if matchers.directories.is_some() {
        Some(check_directories(event, matchers))
    } else {
        None
    };
    let command_match_matched = if matchers.command_match.is_some() {
        Some(check_command(event, matchers))
    } else {
        None
    };
    let operations_matched = if matchers.operations.is_some() {
        Some(check_operations(event, matchers))
    } else {
        None
    };
    let overall = match tools_matched {
        Some(b) => b,
        None => true,
    } && match extensions_matched {
        Some(b) => b,
        None => true,
    } && match directories_matched {
        Some(b) => b,
        None => true,
    } && match command_match_matched {
        Some(b) => b,
        None => true,
    } && match operations_matched {
        Some(b) => b,
        None => true,
    };
    (
        overall,
        Some(
            MatcherResults {
                tools_matched,
                extensions_matched,
                directories_matched,
                command_match_matched,
                operations_matched,
            },
        ),
    )
}

} // verus!
