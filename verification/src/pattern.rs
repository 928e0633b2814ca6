//! Searching a text with a regular expression, done by the `regex` crate.
//!
//! Nothing here is proved: the two functions below hand their arguments to the
//! crate, and the library names what comes back without stating how the crate
//! finds it.

use vstd::prelude::*;

verus! {

/// What `regex::Regex::captures_iter` yields for `pattern` on `text`: for each
/// match, from left to right, the part of `text` that group number `group` of
/// the pattern captured, or `None` where that group took no part in the match.
/// The whole is `None` when `regex::Regex::new` rejects the pattern.
pub uninterp spec fn group_captures(pattern: Seq<char>, group: usize, text: Seq<char>) -> Option<
    Seq<Option<Seq<char>>>,
>;

/// What `regex::Regex::replace_all` makes of `text` for `pattern` and
/// `replacement`, or `None` when `regex::Regex::new` rejects the pattern.
pub uninterp spec fn all_matches_replaced(
    pattern: Seq<char>,
    text: Seq<char>,
    replacement: Seq<char>,
) -> Option<Seq<char>>;

/// Compiles `pattern` with `regex::Regex::new` and walks the matches in `text`
/// with `regex::Regex::captures_iter`, taking from each what
/// `regex::Captures::get` returns for `group`. The contract only gives the
/// result its name.
#[verifier::external_body]
pub(crate) fn capture_groups(pattern: &str, group: usize, text: &str) -> (found: Option<
    Vec<Option<String>>,
>)
    ensures
        found.deep_view() == group_captures(pattern@, group, text@),
{
    let compiled = regex::Regex::new(pattern).ok()?;
    let mut found = Vec::new();
    for captures in compiled.captures_iter(text) {
        match captures.get(group) {
            Some(part) => found.push(Some(part.as_str().to_string())),
            None => found.push(None),
        }
    }
    Some(found)
}

/// Compiles `pattern` with `regex::Regex::new` and calls
/// `regex::Regex::replace_all` on `text`. The contract gives the result its
/// name and states one fact: with an empty replacement the crate builds the
/// result from the parts of `text` that lie between the matches, so it is no
/// longer than `text`.
#[verifier::external_body]
pub(crate) fn replace_all_matches(pattern: &str, text: &str, replacement: &str) -> (replaced:
    Option<String>)
    ensures
        replaced.deep_view() == all_matches_replaced(pattern@, text@, replacement@),
        replacement@.len() == 0 ==> (replaced matches Some(r) ==> r@.len() <= text@.len()),
{
    let compiled = regex::Regex::new(pattern).ok()?;
    Some(compiled.replace_all(text, replacement).into_owned())
}

} // verus!
