//! The extension of the file that a path or URL names.

use vstd::prelude::*;
use crate::split::{split_chars, texts, without_empty};
use crate::template::path_segments;
use crate::text::{chars_eq, from_chars, to_chars};

verus! {

/// The last of the parts that is not a single dot.
pub open spec fn final_name(parts: Seq<Seq<char>>) -> Option<Seq<char>>
    decreases parts.len(),
{
    if parts.len() == 0 {
        None
    } else if parts.last() == seq!['.'] {
        final_name(parts.drop_last())
    } else {
        Some(parts.last())
    }
}

/// The position of the last `c` in `s`.
pub open spec fn last_index_of(s: Seq<char>, c: char) -> Option<int>
    decreases s.len(),
{
    if s.len() == 0 {
        None
    } else if s.last() == c {
        Some(s.len() - 1)
    } else {
        last_index_of(s.drop_last(), c)
    }
}

/// The extension of a file name: what follows its last dot, unless the name
/// is `..`, holds no dot, or holds its only dot at the start.
pub open spec fn name_extension(name: Seq<char>) -> Option<Seq<char>> {
    if name == seq!['.', '.'] {
        None
    } else {
        match last_index_of(name, '.') {
            Some(dot) => if dot == 0 {
                None
            } else {
                Some(name.skip(dot + 1))
            },
            None => None,
        }
    }
}

/// The extension of the file that `path` names. The file name is the last
/// part between slashes that is neither empty nor a single dot.
pub open spec fn extension_of(path: Seq<char>) -> Option<Seq<char>> {
    match final_name(path_segments(path)) {
        Some(name) => name_extension(name),
        None => None,
    }
}

/// The extension of the file that `path` names.
pub fn path_extension(path: &str) -> (extension: Option<String>)
    ensures
        crate::text::text_of(extension) == extension_of(path@),
{
    let chars = to_chars(path);
    let parts = without_empty(split_chars(&chars, '/'));
    let ghost all = texts(parts@);
    let mut dot: Vec<char> = Vec::new();
    dot.push('.');
    assert(dot@ == seq!['.']);
    let mut n: usize = parts.len();
    assert(all.take(n as int) == all);
    while n > 0 && chars_eq(&parts[n - 1], &dot)
        invariant
            n <= parts.len(),
            all == texts(parts@),
            dot@ == seq!['.'],
            final_name(all.take(n as int)) == final_name(all),
        decreases n,
    {
        proof {
            let upto = all.take(n as int);
            assert(upto.last() == parts@[n - 1]@);
            assert(upto.drop_last() == all.take(n - 1));
        }
        n -= 1;
    }
    if n == 0 {
        return None;
    }
    let name = &parts[n - 1];
    proof {
        let upto = all.take(n as int);
        assert(upto.last() == name@);
        assert(final_name(all) == Some(name@));
    }
    let mut dots: Vec<char> = Vec::new();
    dots.push('.');
    dots.push('.');
    assert(dots@ == seq!['.', '.']);
    if chars_eq(name, &dots) {
        return None;
    }
    let mut k: usize = name.len();
    assert(name@.take(k as int) == name@);
    while k > 0 && name[k - 1] != '.'
        invariant
            k <= name.len(),
            last_index_of(name@.take(k as int), '.') == last_index_of(name@, '.'),
        decreases k,
    {
        proof {
            let upto = name@.take(k as int);
            assert(upto.last() == name@[k - 1]);
            assert(upto.drop_last() == name@.take(k - 1));
        }
        k -= 1;
    }
    proof {
        let upto = name@.take(k as int);
        if k > 0 {
            assert(upto.last() == name@[k - 1]);
        }
    }
    if k <= 1 {
        return None;
    }
    let mut out: Vec<char> = Vec::new();
    let mut i: usize = k;
    while i < name.len()
        invariant
            k <= i <= name.len(),
            out@ == name@.subrange(k as int, i as int),
        decreases name.len() - i,
    {
        out.push(name[i]);
        assert(name@.subrange(k as int, i + 1) == name@.subrange(k as int, i as int).push(
            name@[i as int],
        ));
        i += 1;
    }
    assert(name@.subrange(k as int, name.len() as int) == name@.skip(k as int));
    Some(from_chars(&out))
}

} // verus!
