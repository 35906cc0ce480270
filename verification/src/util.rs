//! Helpers for file names.

use vstd::prelude::*;
use crate::text::{from_chars, to_chars};

verus! {

/// Whether `c` may not stand in a file name.
pub open spec fn is_reserved(c: char) -> bool {
    c == ':' || c == '?' || c == '/' || c == '|' || c == '*'
}

/// `path` with a hyphen in place of each reserved character.
pub open spec fn sanitized(path: Seq<char>) -> Seq<char> {
    Seq::new(
        path.len(),
        |i: int|
            if is_reserved(path[i]) {
                '-'
            } else {
                path[i]
            },
    )
}

/// Sanitize the given path: the result holds a hyphen in place of each of
/// the characters `:`, `?`, `/`, `|` and `*`, and is otherwise unchanged.
pub fn sanitize_path(path: &str) -> (clean: String)
    ensures
        clean@ == sanitized(path@),
        clean@.len() == path@.len(),
        forall|i: int| 0 <= i < clean@.len() ==> !is_reserved(#[trigger] clean@[i]),
{
    let chars = to_chars(path);
    let mut out: Vec<char> = Vec::new();
    let mut i: usize = 0;
    while i < chars.len()
        invariant
            i <= chars.len(),
            chars@ == path@,
            out@ == sanitized(path@).take(i as int),
        decreases chars.len() - i,
    {
        let c: char = chars[i];
        let kept: char = if c == ':' || c == '?' || c == '/' || c == '|' || c == '*' {
            '-'
        } else {
            c
        };
        out.push(kept);
        assert(sanitized(path@).take(i + 1) == sanitized(path@).take(i as int).push(kept));
        i += 1;
    }
    assert(sanitized(path@).take(chars.len() as int) == sanitized(path@));
    from_chars(&out)
}

/// Escapes a file name: the same replacement as `sanitize_path`.
pub fn escape_filename(path: &str) -> (clean: String)
    ensures
        clean@ == sanitized(path@),
{
    sanitize_path(path)
}

} // verus!
