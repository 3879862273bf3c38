//! Governance enums: policy modes, decisions, confidence and trust levels.

use vstd::prelude::*;
use crate::text;

verus! {

/// Policy enforcement mode for rules.
///
/// Controls how a rule behaves when it matches:
/// - `Enforce`: normal behaviour - blocks, injects, or runs validators
/// - `Warn`: never blocks, injects warning context instead
/// - `Audit`: logs only, no blocking or injection
#[derive(Debug, Clone, Copy, PartialEq, Eq, Structural)]
pub enum PolicyMode {
    /// Normal enforcement - blocks, injects, or runs validators.
    Enforce,
    /// Never blocks, injects warning context instead.
    Warn,
    /// Logs only, no blocking or injection.
    Audit,
}

impl Default for PolicyMode {
    /// The default mode is `Enforce`.
    fn default() -> (r: Self)
        ensures
            r == PolicyMode::Enforce,
    {
        PolicyMode::Enforce
    }
}

impl PolicyMode {
    /// The lower-case name of the mode, as it appears in configuration files
    /// and log output.
    pub fn as_str(&self) -> (r: &'static str)
        ensures
            *self == PolicyMode::Enforce ==> r@ == "enforce"@,
            *self == PolicyMode::Warn ==> r@ == "warn"@,
            *self == PolicyMode::Audit ==> r@ == "audit"@,
    {
        match self {
            PolicyMode::Enforce => "enforce",
            PolicyMode::Warn => "warn",
            PolicyMode::Audit => "audit",
        }
    }

    /// Parse a mode name, ignoring ASCII case; `None` for anything else.
    pub fn from_str(s: &str) -> (r: Option<PolicyMode>)
        ensures
            r == Some(PolicyMode::Enforce) <==> text::seq_eq_ci(s@, "enforce"@),
            r == Some(PolicyMode::Warn) <==> text::seq_eq_ci(s@, "warn"@),
            r == Some(PolicyMode::Audit) <==> text::seq_eq_ci(s@, "audit"@),
            r is None <==> !text::seq_eq_ci(s@, "enforce"@) && !text::seq_eq_ci(s@, "warn"@)
                && !text::seq_eq_ci(s@, "audit"@),
    {
        proof {
            text::lemma_seq_eq_ci_distinct(s@, "enforce"@, "warn"@);
            text::lemma_seq_eq_ci_distinct(s@, "enforce"@, "audit"@);
            text::lemma_seq_eq_ci_distinct(s@, "warn"@, "audit"@);
            reveal_strlit("enforce");
            reveal_strlit("warn");
            reveal_strlit("audit");
        }
        if text::eq_ignore_ascii_case(s, "enforce") {
            Some(PolicyMode::Enforce)
        } else if text::eq_ignore_ascii_case(s, "warn") {
            Some(PolicyMode::Warn)
        } else if text::eq_ignore_ascii_case(s, "audit") {
            Some(PolicyMode::Audit)
        } else {
            None
        }
    }
}

/// Confidence level recorded in a rule's governance metadata.
#[derive(Debug, Clone, Copy, PartialEq, Eq, Structural)]
pub enum Confidence {
    High,
    Medium,
    Low,
}

impl Confidence {
    /// The lower-case name of the confidence level.
    pub fn as_str(&self) -> (r: &'static str)
        ensures
            *self == Confidence::High ==> r@ == "high"@,
            *self == Confidence::Medium ==> r@ == "medium"@,
            *self == Confidence::Low ==> r@ == "low"@,
    {
        match self {
            Confidence::High => "high",
            Confidence::Medium => "medium",
            Confidence::Low => "low",
        }
    }
}

/// The decision recorded for one processed event, derived from the governing
/// mode and the final response; never stored as rule state.
#[derive(Debug, Clone, Copy, PartialEq, Eq, Structural)]
pub enum Decision {
    /// The operation was allowed to proceed.
    Allowed,
    /// The operation was blocked.
    Blocked,
    /// A warning was issued but the operation proceeded.
    Warned,
    /// The rule matched but was only recorded (audit mode).
    Audited,
}

impl Decision {
    /// The lower-case name of the decision.
    pub fn as_str(&self) -> (r: &'static str)
        ensures
            *self == Decision::Allowed ==> r@ == "allowed"@,
            *self == Decision::Blocked ==> r@ == "blocked"@,
            *self == Decision::Warned ==> r@ == "warned"@,
            *self == Decision::Audited ==> r@ == "audited"@,
    {
        match self {
            Decision::Allowed => "allowed",
            Decision::Blocked => "blocked",
            Decision::Warned => "warned",
            Decision::Audited => "audited",
        }
    }

    /// Parse a decision name, ignoring ASCII case.  Any other input is
    /// rejected with a message naming it.
    pub fn from_str(s: &str) -> (r: Result<Decision, String>)
        ensures
            r == Ok::<Decision, String>(Decision::Allowed) <==> text::seq_eq_ci(s@, "allowed"@),
            r == Ok::<Decision, String>(Decision::Blocked) <==> text::seq_eq_ci(s@, "blocked"@),
            r == Ok::<Decision, String>(Decision::Warned) <==> text::seq_eq_ci(s@, "warned"@),
            r == Ok::<Decision, String>(Decision::Audited) <==> text::seq_eq_ci(s@, "audited"@),
            r is Err ==> r->Err_0@ == "Invalid decision: "@ + s@,
    {
        proof {
            text::lemma_seq_eq_ci_distinct(s@, "allowed"@, "blocked"@);
            text::lemma_seq_eq_ci_distinct(s@, "allowed"@, "warned"@);
            text::lemma_seq_eq_ci_distinct(s@, "allowed"@, "audited"@);
            text::lemma_seq_eq_ci_distinct(s@, "blocked"@, "warned"@);
            text::lemma_seq_eq_ci_distinct(s@, "blocked"@, "audited"@);
            text::lemma_seq_eq_ci_distinct(s@, "warned"@, "audited"@);
            reveal_strlit("allowed");
            reveal_strlit("blocked");
            reveal_strlit("warned");
            reveal_strlit("audited");
            assert(!text::seq_eq_ci("allowed"@, "blocked"@)) by {
                assert(text::canon_char("allowed"@[0]) != text::canon_char("blocked"@[0]));
            }
            assert(!text::seq_eq_ci("allowed"@, "audited"@)) by {
                assert(text::canon_char("allowed"@[1]) != text::canon_char("audited"@[1]));
            }
            assert(!text::seq_eq_ci("blocked"@, "audited"@)) by {
                assert(text::canon_char("blocked"@[0]) != text::canon_char("audited"@[0]));
            }
        }
        if text::eq_ignore_ascii_case(s, "allowed") {
            Ok(Decision::Allowed)
        } else if text::eq_ignore_ascii_case(s, "blocked") {
            Ok(Decision::Blocked)
        } else if text::eq_ignore_ascii_case(s, "warned") {
            Ok(Decision::Warned)
        } else if text::eq_ignore_ascii_case(s, "audited") {
            Ok(Decision::Audited)
        } else {
            let mut msg = String::new();
            msg.append("Invalid decision: ");
            msg.append(s);
            Err(msg)
        }
    }
}

/// Trust level for validator scripts.  Informational only in this version.
#[derive(Debug, Clone, Copy, PartialEq, Eq, Structural)]
pub enum TrustLevel {
    /// Script is local to the project.
    Local,
    /// Script has been verified.
    Verified,
    /// Script from an external or untrusted source.
    Untrusted,
}

impl Default for TrustLevel {
    /// The default trust level is `Local`.
    fn default() -> (r: Self)
        ensures
            r == TrustLevel::Local,
    {
        TrustLevel::Local
    }
}

impl TrustLevel {
    /// The lower-case name of the trust level.
    pub fn as_str(&self) -> (r: &'static str)
        ensures
            *self == TrustLevel::Local ==> r@ == "local"@,
            *self == TrustLevel::Verified ==> r@ == "verified"@,
            *self == TrustLevel::Untrusted ==> r@ == "untrusted"@,
    {
        match self {
            TrustLevel::Local => "local",
            TrustLevel::Verified => "verified",
            TrustLevel::Untrusted => "untrusted",
        }
    }
}

} // verus!
