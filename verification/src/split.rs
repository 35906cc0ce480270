//! Splitting a text at a separator character.

use vstd::prelude::*;

verus! {

/// The number of characters of `s` before its first `sep`, or the length of
/// `s` where it holds none.
pub open spec fn run_length(s: Seq<char>, sep: char) -> nat
    decreases s.len(),
{
    if s.len() == 0 || s[0] == sep {
        0
    } else {
        1 + run_length(s.skip(1), sep)
    }
}

/// The parts of `s` between its separators, empty ones included: one more
/// part than `s` holds separators.
pub open spec fn split_all(s: Seq<char>, sep: char) -> Seq<Seq<char>>
    decreases s.len(),
{
    let n = run_length(s, sep) as int;
    if n >= s.len() {
        seq![s]
    } else {
        seq![s.take(n)] + split_all(s.skip(n + 1), sep)
    }
}

/// The parts of `parts` that are not empty, in order.
pub open spec fn drop_empty(parts: Seq<Seq<char>>) -> Seq<Seq<char>>
    decreases parts.len(),
{
    if parts.len() == 0 {
        parts
    } else if parts.last().len() == 0 {
        drop_empty(parts.drop_last())
    } else {
        drop_empty(parts.drop_last()).push(parts.last())
    }
}

/// The texts that the vectors of `parts` hold.
pub open spec fn texts(parts: Seq<Vec<char>>) -> Seq<Seq<char>> {
    Seq::new(parts.len(), |i: int| parts[i]@)
}

/// The run before the first separator is no longer than the text, holds no
/// separator, and a separator follows it unless the text ends there.
pub proof fn lemma_run_length(s: Seq<char>, sep: char)
    ensures
        run_length(s, sep) <= s.len(),
        forall|i: int| 0 <= i < run_length(s, sep) ==> s[i] != sep,
        run_length(s, sep) < s.len() ==> s[run_length(s, sep) as int] == sep,
    decreases s.len(),
{
    if s.len() == 0 || s[0] == sep {
    } else {
        lemma_run_length(s.skip(1), sep);
        assert forall|i: int| 0 <= i < run_length(s, sep) implies s[i] != sep by {
            if i > 0 {
                assert(s[i] == s.skip(1)[i - 1]);
            }
        }
    }
}

/// A stretch without separator that ends at a separator, or at the end of the
/// text, is the run before the first separator.
pub proof fn lemma_run_length_is(s: Seq<char>, sep: char, n: int)
    requires
        0 <= n <= s.len(),
        forall|i: int| 0 <= i < n ==> s[i] != sep,
        n < s.len() ==> s[n] == sep,
    ensures
        run_length(s, sep) == n,
    decreases s.len(),
{
    if n > 0 {
        let rest = s.skip(1);
        assert forall|i: int| 0 <= i < n - 1 implies rest[i] != sep by {
            assert(rest[i] == s[i + 1]);
        }
        lemma_run_length_is(rest, sep, n - 1);
    }
}

/// Splits `s` at every `sep`. Empty parts are kept.
pub fn split_chars(s: &Vec<char>, sep: char) -> (parts: Vec<Vec<char>>)
    ensures
        texts(parts@) == split_all(s@, sep),
{
    let mut parts: Vec<Vec<char>> = Vec::new();
    let mut piece: Vec<char> = Vec::new();
    let mut start: usize = 0;
    let mut i: usize = 0;
    assert(s@.skip(0) == s@);
    assert(texts(parts@) + split_all(s@, sep) == split_all(s@, sep));
    while i < s.len()
        invariant
            start <= i <= s.len(),
            piece@ == s@.subrange(start as int, i as int),
            forall|k: int| start <= k < i ==> s@[k] != sep,
            texts(parts@) + split_all(s@.skip(start as int), sep) == split_all(s@, sep),
        decreases s.len() - i,
    {
        let c: char = s[i];
        if c == sep {
            proof {
                let rest = s@.skip(start as int);
                lemma_run_length_is(rest, sep, i - start);
                assert(rest.take(i - start) == piece@);
                assert(rest.skip(i - start + 1) == s@.skip(i + 1));
                let before = texts(parts@);
                assert(texts(parts@.push(piece)) == before.push(piece@));
                assert(before.push(piece@) + split_all(s@.skip(i + 1), sep) == before + (
                seq![piece@] + split_all(s@.skip(i + 1), sep)));
            }
            parts.push(piece);
            piece = Vec::new();
            start = i + 1;
        } else {
            piece.push(c);
            assert(s@.subrange(start as int, i + 1) == s@.subrange(start as int, i as int).push(
                c,
            ));
        }
        i += 1;
    }
    proof {
        let rest = s@.skip(start as int);
        lemma_run_length_is(rest, sep, s.len() - start);
        assert(rest == piece@);
        let before = texts(parts@);
        assert(texts(parts@.push(piece)) == before.push(piece@));
        assert(before.push(piece@) == before + seq![piece@]);
    }
    parts.push(piece);
    parts
}

/// The parts of `parts` that are not empty, in order.
pub fn without_empty(parts: Vec<Vec<char>>) -> (kept: Vec<Vec<char>>)
    ensures
        texts(kept@) == drop_empty(texts(parts@)),
{
    let mut kept: Vec<Vec<char>> = Vec::new();
    let mut i: usize = 0;
    assert(texts(kept@) == drop_empty(texts(parts@).take(0)));
    while i < parts.len()
        invariant
            i <= parts.len(),
            texts(kept@) == drop_empty(texts(parts@).take(i as int)),
        decreases parts.len() - i,
    {
        proof {
            let upto = texts(parts@).take(i + 1);
            assert(upto.drop_last() == texts(parts@).take(i as int));
            assert(upto.last() == parts@[i as int]@);
        }
        if parts[i].len() > 0 {
            let ghost before = texts(kept@);
            let piece = parts[i].clone();
            assert(piece@ == parts@[i as int]@);
            assert(texts(kept@.push(piece)) == before.push(piece@));
            kept.push(piece);
        }
        i += 1;
    }
    assert(texts(parts@).take(parts.len() as int) == texts(parts@));
    kept
}

} // verus!
