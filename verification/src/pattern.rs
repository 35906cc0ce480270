//! Pattern search, done by the `regex` crate.

use vstd::prelude::*;
use crate::text::text_of;

verus! {

/// What the first capture group of `pattern` holds at the leftmost match of
/// `pattern` in `text`, or `None` where nothing matches, the group took no
/// part in the match, or `pattern` is no valid pattern.
pub uninterp spec fn first_group(pattern: Seq<char>, text: Seq<char>) -> Option<Seq<char>>;

/// `regex::Regex::new`, then `captures` and `get(1)` on the result: the text
/// of the first group at the leftmost match. Nothing is claimed of the result
/// but that it depends on the two arguments alone.
#[verifier::external_body]
pub(crate) fn capture_first_group(pattern: &str, text: &str) -> (found: Option<String>)
    ensures
        text_of(found) == first_group(pattern@, text@),
{
    let regex = regex::Regex::new(pattern).ok()?;
    let captures = regex.captures(text)?;
    Some(captures.get(1)?.as_str().to_string())
}

} // verus!
