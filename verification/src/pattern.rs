//! Searching a text for a regular expression.
//!
//! The expressions are those of the `regex` crate, which does the work; what
//! it finds is known to contracts by name only.

use crate::json::opt_text;
use vstd::prelude::*;

verus! {

/// Whether the expression `pattern` matches anywhere in `text`, as the `regex`
/// crate finds; nothing where the crate does not accept the expression.
pub uninterp spec fn pattern_found(pattern: Seq<char>, text: Seq<char>) -> Option<bool>;

/// What the first group of `pattern` holds in the leftmost match in `text`,
/// as the `regex` crate finds; nothing where the crate does not accept the
/// expression, and an inner nothing where there is no match or the group took
/// no part in it.
pub uninterp spec fn pattern_group(pattern: Seq<char>, text: Seq<char>) -> Option<
    Option<Seq<char>>,
>;

/// The view of a group that may not be there.
pub open spec fn group_view(g: Option<Option<String>>) -> Option<Option<Seq<char>>> {
    match g {
        Some(inner) => Some(opt_text(inner)),
        None => None,
    }
}

/// Compiles `pattern` with `Regex::new` and asks `Regex::is_match` whether it
/// matches anywhere in `text`. An expression that does not compile gives
/// nothing. Both depend on the two texts alone.
#[verifier::external_body]
pub(crate) fn find_pattern(pattern: &str, text: &str) -> (r: Option<bool>)
    ensures
        r == pattern_found(pattern@, text@),
{
    regex::Regex::new(pattern).ok().map(|re| re.is_match(text))
}

/// Compiles `pattern` with `Regex::new`, takes the leftmost match in `text`
/// with `Regex::captures`, and copies what `Captures::get(1)` holds. An
/// expression that does not compile gives nothing.
#[verifier::external_body]
pub(crate) fn find_group(pattern: &str, text: &str) -> (r: Option<Option<String>>)
    ensures
        group_view(r) == pattern_group(pattern@, text@),
{
    regex::Regex::new(pattern).ok().map(
        |re| re.captures(text).and_then(|c| c.get(1)).map(|m| m.as_str().to_owned()),
    )
}

} // verus!
