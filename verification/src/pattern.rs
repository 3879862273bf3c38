//! The one boundary to the regex engine.  Whether a pattern compiles is a
//! function of the pattern alone, and whether it matches is a function of
//! the pattern and the text alone, so both results carry names that the
//! rest of the library's contracts speak of.

use vstd::prelude::*;

verus! {

/// Whether the regular expression `pattern` compiles.
pub uninterp spec fn regex_ok(pattern: Seq<char>) -> bool;

/// Whether the regular expression `pattern` matches somewhere in `text`.
pub uninterp spec fn regex_match(pattern: Seq<char>, text: Seq<char>) -> bool;

/// Relies on `regex::Regex::new` and `regex::Regex::is_match`: compilation
/// succeeds or fails by the pattern alone, and a compiled pattern matches a
/// text by the two strings alone.  `None` reports a pattern that does not
/// compile.
#[verifier::external_body]
pub(crate) fn match_pattern(pattern: &str, text: &str) -> (r: Option<bool>)
    ensures
        r is Some <==> regex_ok(pattern@),
        r matches Some(b) ==> b == regex_match(pattern@, text@),
{
    match regex::Regex::new(pattern) {
        Ok(re) => Some(re.is_match(text)),
        Err(_) => None,
    }
}

} // verus!
