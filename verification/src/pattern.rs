//! Matching text against a regular expression.

use regex::Regex;
use vstd::prelude::*;

verus! {

/// The capture groups of the leftmost match of `pattern` in `text`: group 0
/// is the whole match, and a group that took no part in the match is `None`.
/// The whole is `None` where `text` holds no match or `pattern` is no
/// regular expression.
pub uninterp spec fn regex_captures(pattern: Seq<char>, text: Seq<char>) -> Option<
    Seq<Option<Seq<char>>>,
>;

/// Calls `Regex::new` and `Regex::captures` of the `regex` crate and copies
/// each group's text out. The contract names the outcome without describing
/// the matching itself.
#[verifier::external_body]
pub(crate) fn capture_groups(pattern: &str, text: &str) -> (groups: Option<Vec<Option<String>>>)
    ensures
        groups.deep_view() == regex_captures(pattern@, text@),
{
    let regex = Regex::new(pattern).ok()?;
    let captures = regex.captures(text)?;
    Some(captures.iter().map(|group| group.map(|m| m.as_str().to_owned())).collect())
}

} // verus!
