//! The configuration model: global settings, the rule set, structural
//! validation, and the enabled-rule ordering that conflict resolution
//! relies on.
//!
//! Reading a configuration document from disk belongs to the caller that
//! owns file access; everything that decides whether a configuration is
//! well-formed, and in which order its rules apply, is here.

use vstd::prelude::*;
use vstd::string::*;
use crate::rules::{
    enabled_filter, lemma_enabled_filter_push, lemma_prio_filter_congruent, prio_filter,
    rule_views, sort_rules_by_priority, sorted_desc, Rule,
};
use crate::text;

verus! {

/// The default logging verbosity.
pub fn default_log_level() -> (r: String)
    ensures
        r@ == "info"@,
{
    String::from_str("info")
}

/// The default cap on injected context, in bytes.
pub fn default_max_context_size() -> (r: usize)
    ensures
        r == 1048576,
{
    1048576
}

/// The default validator timeout, in seconds.
pub fn default_script_timeout() -> (r: u32)
    ensures
        r == 5,
{
    5
}

/// Executor failures resolve to allow by default.
pub fn default_fail_open() -> (r: bool)
    ensures
        r,
{
    true
}

/// Debug logging is off by default.
pub fn default_debug_logs() -> (r: bool)
    ensures
        !r,
{
    false
}

/// Global engine settings.
#[derive(Debug)]
pub struct Settings {
    /// Logging verbosity level.
    pub log_level: String,
    /// Maximum size of injected context in bytes.
    pub max_context_size: usize,
    /// Default script execution timeout in seconds.
    pub script_timeout: u32,
    /// Whether to continue operations on executor failures.
    pub fail_open: bool,
    /// Whether to record full event and rule detail in the audit log.
    pub debug_logs: bool,
}

impl Clone for Settings {
    /// The copy equals the original.
    fn clone(&self) -> (r: Self)
        ensures
            r == *self,
    {
        Settings {
            log_level: self.log_level.clone(),
            max_context_size: self.max_context_size,
            script_timeout: self.script_timeout,
            fail_open: self.fail_open,
            debug_logs: self.debug_logs,
        }
    }
}

impl Default for Settings {
    /// The documented defaults: info-level logging, a one-megabyte context
    /// cap, a five-second validator timeout, fail-open, no debug logs.
    fn default() -> (r: Self)
        ensures
            r.log_level@ == "info"@,
            r.max_context_size == 1048576,
            r.script_timeout == 5,
            r.fail_open,
            !r.debug_logs,
    {
        Settings {
            log_level: default_log_level(),
            max_context_size: default_max_context_size(),
            script_timeout: default_script_timeout(),
            fail_open: default_fail_open(),
            debug_logs: default_debug_logs(),
        }
    }
}

/// Whether debug logging is active for this run.  Any one source suffices:
/// the explicit flag handed in by the caller (which also carries the
/// environment toggle, resolved at the process edge), or the loaded
/// configuration's setting.
#[derive(Debug, Clone, Copy, PartialEq, Eq, Structural)]
pub struct DebugConfig {
    /// Whether debug logging is enabled.
    pub enabled: bool,
}

impl Default for DebugConfig {
    /// Debug logging off.
    fn default() -> (r: Self)
        ensures
            !r.enabled,
    {
        DebugConfig { enabled: false }
    }
}

impl DebugConfig {
    /// Combine the caller's flag with the configuration's setting.
    pub fn new(cli_flag: bool, config_setting: bool) -> (r: Self)
        ensures
            r.enabled == (cli_flag || config_setting),
    {
        DebugConfig { enabled: cli_flag || config_setting }
    }
}

/// A decimal digit.
pub open spec fn is_digit(c: char) -> bool {
    48 <= (c as u32) && (c as u32) <= 57
}

/// `k` splits `s` into digits, a dot, and digits.
pub open spec fn version_split_at(s: Seq<char>, k: int) -> bool {
    &&& 1 <= k
    &&& k + 1 < s.len()
    &&& s[k] == '.'
    &&& forall|i: int| 0 <= i < k ==> is_digit(s[i])
    &&& forall|i: int| k < i < s.len() ==> is_digit(s[i])
}

/// A version string: one or more digits, a dot, one or more digits.
pub open spec fn valid_version(s: Seq<char>) -> bool {
    exists|k: int| version_split_at(s, k)
}

/// Whether `s` is a well-formed version string.
pub fn is_valid_version(s: &str) -> (r: bool)
    ensures
        r == valid_version(s@),
{
    let n = s.unicode_len();
    let mut i: usize = 0;
    loop
        invariant
            n == s@.len(),
            0 <= i <= n,
            forall|j: int| 0 <= j < i ==> is_digit(s@[j]),
        ensures
            n == s@.len(),
            0 <= i <= n,
            forall|j: int| 0 <= j < i ==> is_digit(s@[j]),
            i == n || !is_digit(s@[i as int]),
        decreases n - i,
    {
        if i < n {
            let u = s.get_char(i) as u32;
            if 48 <= u && u <= 57 {
                i = i + 1;
                continue;
            }
        }
        break;
    }
    if i == 0 || i >= n {
        proof {
            assert forall|k: int| !version_split_at(s@, k) by {
                if 1 <= k && k + 1 < s@.len() {
                    if i == 0 {
                        assert(!is_digit(s@[0]) || s@[0] == '.');
                    }
                }
            }
        }
        return false;
    }
    if s.get_char(i) != '.' {
        proof {
            assert forall|k: int| !version_split_at(s@, k) by {
                if version_split_at(s@, k) {
                    if k < i {
                        assert(is_digit(s@[k]));
                    } else if k > i {
                        assert(is_digit(s@[i as int]));
                    }
                }
            }
        }
        return false;
    }
    let k = i;
    let mut j: usize = k + 1;
    loop
        invariant
            n == s@.len(),
            k < j <= n,
            forall|t: int| k < t < j ==> is_digit(s@[t]),
        ensures
            n == s@.len(),
            k < j <= n,
            forall|t: int| k < t < j ==> is_digit(s@[t]),
            j == n || !is_digit(s@[j as int]),
        decreases n - j,
    {
        if j < n {
            let u = s.get_char(j) as u32;
            if 48 <= u && u <= 57 {
                j = j + 1;
                continue;
            }
        }
        break;
    }
    if j < n || j == k + 1 {
        proof {
            assert forall|kk: int| !version_split_at(s@, kk) by {
                if version_split_at(s@, kk) {
                    if kk < k {
                        assert(is_digit(s@[kk]));
                    } else if kk > k {
                        assert(is_digit(s@[k as int]));
                    } else {
                        if j < n {
                            assert(is_digit(s@[j as int]));
                        }
                    }
                }
            }
        }
        return false;
    }
    proof {
        assert(version_split_at(s@, k as int));
    }
    true
}

/// A rule-name character: a letter, a digit, an underscore or a hyphen.
pub open spec fn is_word_char(c: char) -> bool {
    ||| is_digit(c)
    ||| 65 <= (c as u32) && (c as u32) <= 90
    ||| 97 <= (c as u32) && (c as u32) <= 122
    ||| c == '_'
    ||| c == '-'
}

/// A rule name: non-empty, made of word characters only.
pub open spec fn valid_rule_name(s: Seq<char>) -> bool {
    s.len() > 0 && (forall|i: int| 0 <= i < s.len() ==> is_word_char(s[i]))
}

/// Whether `s` is a well-formed rule name.
pub fn is_valid_rule_name(s: &str) -> (r: bool)
    ensures
        r == valid_rule_name(s@),
{
    let n = s.unicode_len();
    if n == 0 {
        return false;
    }
    let mut i: usize = 0;
    while i < n
        invariant
            n == s@.len(),
            0 <= i <= n,
            forall|j: int| 0 <= j < i ==> is_word_char(s@[j]),
        decreases n - i,
    {
        let c = s.get_char(i);
        let u = c as u32;
        let ok = (48 <= u && u <= 57) || (65 <= u && u <= 90) || (97 <= u && u <= 122) || c == '_'
            || c == '-';
        if !ok {
            return false;
        }
        i = i + 1;
    }
    true
}

/// A configuration rejected by validation.
#[derive(Debug)]
pub enum ConfigError {
    /// The version string is not digits-dot-digits.
    InvalidVersion { version: String },
    /// Two rules carry the same name.
    DuplicateRuleName { name: String },
    /// A rule name is empty or holds a character outside the allowed set.
    InvalidRuleName { name: String },
}

/// The message of a configuration error.
pub open spec fn spec_config_error_message(e: ConfigError) -> Seq<char> {
    match e {
        ConfigError::InvalidVersion { version } => "Invalid version format: "@ + version@,
        ConfigError::DuplicateRuleName { name } => "Duplicate rule name: "@ + name@,
        ConfigError::InvalidRuleName { name } => "Invalid rule name format: "@ + name@,
    }
}

impl ConfigError {
    /// A human-readable description of the error.
    pub fn message(&self) -> (r: String)
        ensures
            r@ == spec_config_error_message(*self),
    {
        match self {
            ConfigError::InvalidVersion { version } => {
                let mut m = String::new();
                m.append("Invalid version format: ");
                m.append(version.as_str());
                proof {
                    assert(m@ =~= spec_config_error_message(*self));
                }
                m
            },
            ConfigError::DuplicateRuleName { name } => {
                let mut m = String::new();
                m.append("Duplicate rule name: ");
                m.append(name.as_str());
                proof {
                    assert(m@ =~= spec_config_error_message(*self));
                }
                m
            },
            ConfigError::InvalidRuleName { name } => {
                let mut m = String::new();
                m.append("Invalid rule name format: ");
                m.append(name.as_str());
                proof {
                    assert(m@ =~= spec_config_error_message(*self));
                }
                m
            },
        }
    }
}

/// No two rules share a name.
pub open spec fn names_unique(s: Seq<Rule>) -> bool {
    forall|i: int, j: int| 0 <= i < j < s.len() ==> s[i]@.name@ != s[j]@.name@
}

/// A structurally valid configuration: a well-formed version string, every
/// rule name well-formed, and no name used twice.
pub open spec fn spec_config_valid(version: Seq<char>, rules: Seq<Rule>) -> bool {
    &&& valid_version(version)
    &&& forall|i: int| 0 <= i < rules.len() ==> valid_rule_name(#[trigger] rules[i]@.name@)
    &&& names_unique(rules)
}

/// A complete configuration: version, rules, and global settings.
#[derive(Debug)]
pub struct Config {
    /// Configuration format version.
    pub version: String,
    /// The policy rules, in declaration order.
    pub rules: Vec<Rule>,
    /// Global settings.
    pub settings: Settings,
}

/// Duplicate a vector of rules; the copies' models equal the originals'.
pub fn clone_rules(v: &Vec<Rule>) -> (r: Vec<Rule>)
    ensures
        r@.len() == v@.len(),
        rule_views(r@) == rule_views(v@),
{
    let mut out: Vec<Rule> = Vec::new();
    let mut i: usize = 0;
    while i < v.len()
        invariant
            0 <= i <= v@.len(),
            out@.len() == i,
            forall|j: int| 0 <= j < i ==> out@[j]@ == v@[j]@,
        decreases v@.len() - i,
    {
        out.push(v[i].clone());
        i = i + 1;
    }
    proof {
        assert(rule_views(out@) =~= rule_views(v@));
    }
    out
}

impl Clone for Config {
    /// The copy's model equals the original's.
    fn clone(&self) -> (r: Self)
        ensures
            r.version == self.version,
            r.rules@.len() == self.rules@.len(),
            rule_views(r.rules@) == rule_views(self.rules@),
            r.settings == self.settings,
    {
        Config {
            version: self.version.clone(),
            rules: clone_rules(&self.rules),
            settings: self.settings.clone(),
        }
    }
}

impl Default for Config {
    /// The empty configuration: version 1.0, no rules, default settings.
    /// The engine is fail-open by construction when no configuration file
    /// exists: this is what it runs with.
    fn default() -> (r: Self)
        ensures
            r.version@ == "1.0"@,
            r.rules@.len() == 0,
            r.settings.log_level@ == "info"@,
            r.settings.max_context_size == 1048576,
            r.settings.script_timeout == 5,
            r.settings.fail_open,
            !r.settings.debug_logs,
    {
        Config {
            version: String::from_str("1.0"),
            rules: Vec::new(),
            settings: Settings::default(),
        }
    }
}

impl Config {
    /// Validate configuration integrity: the version format, each rule
    /// name's format, and name uniqueness.  Succeeds exactly on valid
    /// configurations; the error names what was rejected.
    pub fn validate(&self) -> (r: Result<(), ConfigError>)
        ensures
            r is Ok <==> spec_config_valid(self.version@, self.rules@),
            r matches Err(e) ==> match e {
                ConfigError::InvalidVersion { version } => version@ == self.version@
                    && !valid_version(self.version@),
                ConfigError::DuplicateRuleName { name } => exists|i: int, j: int|
                    0 <= i < j < self.rules@.len() && self.rules@[i]@.name@
                        == self.rules@[j]@.name@ && name@ == self.rules@[j]@.name@,
                ConfigError::InvalidRuleName { name } => exists|j: int|
                    0 <= j < self.rules@.len() && name@ == #[trigger] self.rules@[j]@.name@
                        && !valid_rule_name(self.rules@[j]@.name@),
            },
    {
        if !is_valid_version(self.version.as_str()) {
            return Err(ConfigError::InvalidVersion { version: self.version.clone() });
        }
        let n = self.rules.len();
        let mut j: usize = 0;
        while j < n
            invariant
                n == self.rules@.len(),
                0 <= j <= n,
                forall|t: int| 0 <= t < j ==> valid_rule_name(#[trigger] self.rules@[t]@.name@),
                forall|a: int, b: int|
                    0 <= a < b < j ==> self.rules@[a]@.name@ != self.rules@[b]@.name@,
            decreases n - j,
        {
            let mut i: usize = 0;
            while i < j
                invariant
                    n == self.rules@.len(),
                    0 <= i <= j < n,
                    forall|a: int| 0 <= a < i ==> self.rules@[a]@.name@ != self.rules@[j as int]@.name@,
                decreases j - i,
            {
                if text::str_eq(self.rules[i].name.as_str(), self.rules[j].name.as_str()) {
                    let dup = self.rules[j].name.clone();
                    proof {
                        assert(self.rules@[i as int]@.name@ == self.rules@[j as int]@.name@ && dup@
                            == self.rules@[j as int]@.name@);
                        assert(!names_unique(self.rules@));
                    }
                    return Err(ConfigError::DuplicateRuleName { name: dup });
                }
                i = i + 1;
            }
            if !is_valid_rule_name(self.rules[j].name.as_str()) {
                let bad = self.rules[j].name.clone();
                proof {
                    assert(bad@ == self.rules@[j as int]@.name@ && !valid_rule_name(
                        self.rules@[j as int]@.name@,
                    ));
                    assert(!spec_config_valid(self.version@, self.rules@));
                }
                return Err(ConfigError::InvalidRuleName { name: bad });
            }
            j = j + 1;
        }
        Ok(())
    }

    /// The enabled rules, stably sorted by descending effective priority:
    /// rules of equal priority keep their declaration order.  This ordering
    /// is load-bearing for conflict resolution.
    pub fn enabled_rules(&self) -> (r: Vec<Rule>)
        ensures
            sorted_desc(r@),
            r@.len() == enabled_filter(self.rules@).len(),
            forall|p: int| #[trigger] rule_views(prio_filter(r@, p)) == rule_views(
                prio_filter(enabled_filter(self.rules@), p),
            ),
    {
        let mut picked: Vec<Rule> = Vec::new();
        let ghost mut prefix: Seq<Rule> = Seq::empty();
        proof {
            reveal(Seq::filter);
            assert(rule_views(picked@) =~= rule_views(enabled_filter(prefix)));
        }
        let mut i: usize = 0;
        while i < self.rules.len()
            invariant
                0 <= i <= self.rules@.len(),
                prefix == self.rules@.subrange(0, i as int),
                picked@.len() == enabled_filter(prefix).len(),
                rule_views(picked@) == rule_views(enabled_filter(prefix)),
            decreases self.rules@.len() - i,
        {
            let ghost old_picked = picked@;
            let ghost old_prefix = prefix;
            let enabled = self.rules[i].is_enabled();
            if enabled {
                picked.push(self.rules[i].clone());
            }
            proof {
                prefix = prefix.push(self.rules@[i as int]);
                assert(prefix =~= self.rules@.subrange(0, i + 1));
                lemma_enabled_filter_push(old_prefix, self.rules@[i as int]);
                if enabled {
                    assert(rule_views(picked@) =~= rule_views(old_picked).push(
                        self.rules@[i as int]@,
                    ));
                    assert(rule_views(enabled_filter(prefix)) =~= rule_views(
                        enabled_filter(old_prefix),
                    ).push(self.rules@[i as int]@));
                }
            }
            i = i + 1;
        }
        proof {
            assert(prefix =~= self.rules@);
        }
        let ghost pre_sort = picked@;
        sort_rules_by_priority(&mut picked);
        proof {
            assert forall|p: int| #[trigger] rule_views(prio_filter(picked@, p)) == rule_views(
                prio_filter(enabled_filter(self.rules@), p),
            ) by {
                assert(prio_filter(picked@, p) == prio_filter(pre_sort, p));
                lemma_prio_filter_congruent(pre_sort, enabled_filter(self.rules@), p);
            }
        }
        picked
    }
}

} // verus!
