//! Regular expressions, as the `regex` crate reads them.

use vstd::prelude::*;

verus! {

/// Whether `pattern` is a regular expression that `regex::Regex::new`
/// accepts.
pub uninterp spec fn regex_compiles(pattern: Seq<char>) -> bool;

/// Whether the regular expression `pattern` has a match anywhere in `text`,
/// as `regex::Regex::is_match` finds it.
pub uninterp spec fn regex_is_match(pattern: Seq<char>, text: Seq<char>) -> bool;

/// Compiles `pattern` with `regex::Regex::new` and looks for a match in
/// `text` with `regex::Regex::is_match`. The result is `None` where the
/// pattern is refused, and otherwise says whether there is a match; both
/// depend on the two texts alone.
#[verifier::external_body]
pub(crate) fn search(pattern: &str, text: &str) -> (found: Option<bool>)
    ensures
        found is Some == regex_compiles(pattern@),
        found matches Some(hit) ==> hit == regex_is_match(pattern@, text@),
{
    match regex::Regex::new(pattern) {
        Ok(expression) => Some(expression.is_match(text)),
        Err(_) => None,
    }
}

/// Whether `text` matches `pattern`: the pattern is a regular expression and
/// has a match in the text.
pub open spec fn matches_pattern(pattern: Seq<char>, text: Seq<char>) -> bool {
    regex_compiles(pattern) && regex_is_match(pattern, text)
}

/// Tells whether `text` matches `pattern`.
pub fn is_match(pattern: &str, text: &str) -> (hit: bool)
    ensures
        hit == matches_pattern(pattern@, text@),
{
    match search(pattern, text) {
        Some(hit) => hit,
        None => false,
    }
}

} // verus!
