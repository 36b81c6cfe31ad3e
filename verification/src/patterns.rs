//! The regular-expression matching that rule patterns are tried with. The
//! engine itself is the `regex` crate; what it computes is named here and
//! relied upon, not restated.

use vstd::prelude::*;

verus! {

/// Whether `pattern` is a pattern that `regex::Regex::new` accepts.
pub uninterp spec fn regex_valid(pattern: Seq<char>) -> bool;

/// Whether the regular expression `pattern` matches anywhere in `text`.
/// Meaningful only when `regex_valid(pattern)` holds.
pub uninterp spec fn regex_matches(pattern: Seq<char>, text: Seq<char>) -> bool;

/// The capture groups of the leftmost match of `pattern` in `text`, in order,
/// group 0 first, with an unmatched group as the empty string. Meaningful
/// only when `pattern` matches `text`.
pub uninterp spec fn regex_capture_groups(pattern: Seq<char>, text: Seq<char>) -> Seq<Seq<char>>;

/// Relies on `regex::Regex::new`: it returns `Ok` exactly for the patterns
/// it accepts, as a function of the pattern alone.
#[verifier::external_body]
pub(crate) fn regex_is_valid(pattern: &str) -> (r: bool)
    ensures
        r == regex_valid(pattern@),
{
    regex::Regex::new(pattern).is_ok()
}

/// Relies on `regex::Regex::new` and `regex::Regex::captures`: `captures`
/// returns `Some` exactly when the pattern matches anywhere in the text, and
/// then holds one entry per capture group, group 0 first; an unmatched group
/// is read as the empty string. Compiling and matching in one call keeps the
/// tie between the pattern and the compiled expression out of trusted hands.
#[verifier::external_body]
pub(crate) fn regex_captures(pattern: &str, text: &str) -> (r: Option<Vec<String>>)
    ensures
        (r is Some) == (regex_valid(pattern@) && regex_matches(pattern@, text@)),
        r is Some ==> r->0.deep_view() == regex_capture_groups(pattern@, text@),
{
    let re = match regex::Regex::new(pattern) {
        Ok(re) => re,
        Err(_) => return None,
    };
    let caps = match re.captures(text) {
        Some(caps) => caps,
        None => return None,
    };
    Some(caps.iter().map(|g| g.map(|m| m.as_str().to_string()).unwrap_or_default()).collect())
}

} // verus!
