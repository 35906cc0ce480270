//! Entities by key: what a JSON object with string keys holds, in the order
//! in which it was read.

use vstd::prelude::*;
use crate::text::{chars_eq, to_chars};

verus! {

/// One member of a keyed collection.
#[derive(Clone, Debug, PartialEq, Eq)]
pub struct Entry<T> {
    /// The key of the member.
    pub key: String,
    /// The entity.
    pub value: T,
}

/// Whether `entries[i]` is the first member with the key `key`.
pub open spec fn is_first_entry<T>(entries: Seq<Entry<T>>, key: Seq<char>, i: int) -> bool {
    &&& 0 <= i < entries.len()
    &&& entries[i].key@ == key
    &&& forall|j: int| 0 <= j < i ==> (#[trigger] entries[j]).key@ != key
}

/// The index of the member with the key `key`, the first one if there are
/// several, or `None` if there is none.
pub open spec fn entry_index<T>(entries: Seq<Entry<T>>, key: Seq<char>) -> Option<int> {
    if exists|i: int| is_first_entry(entries, key, i) {
        Some(choose|i: int| is_first_entry(entries, key, i))
    } else {
        None
    }
}

/// Whether no key occurs twice in `entries`, as in a JSON object.
pub open spec fn distinct_keys<T>(entries: Seq<Entry<T>>) -> bool {
    forall|i: int, j: int|
        0 <= i < j < entries.len() ==> (#[trigger] entries[i]).key@ != (#[trigger] entries[j]).key@
}

/// At most one member is the first with its key.
pub proof fn lemma_first_entry_unique<T>(entries: Seq<Entry<T>>, key: Seq<char>, i: int, j: int)
    requires
        is_first_entry(entries, key, i),
        is_first_entry(entries, key, j),
    ensures
        i == j,
{
    if i < j {
        assert(entries[i].key@ != key);
    }
    if j < i {
        assert(entries[j].key@ != key);
    }
}

/// Where no key occurs twice, a member is the first with its key.
pub proof fn lemma_distinct_key_is_first<T>(entries: Seq<Entry<T>>, i: int)
    requires
        distinct_keys(entries),
        0 <= i < entries.len(),
    ensures
        entry_index(entries, entries[i].key@) == Some(i),
{
    let key = entries[i].key@;
    assert(is_first_entry(entries, key, i));
    let k = choose|k: int| is_first_entry(entries, key, k);
    lemma_first_entry_unique(entries, key, i, k);
}

/// Taking a member out leaves the members with other keys where they were
/// found, one place earlier for those that stood behind it.
pub proof fn lemma_remove_keeps_others<T>(entries: Seq<Entry<T>>, i: int, key: Seq<char>)
    requires
        0 <= i < entries.len(),
        entries[i].key@ != key,
    ensures
        match entry_index(entries, key) {
            Some(j) => entry_index(entries.remove(i), key) == Some(
                if j < i {
                    j
                } else {
                    j - 1
                },
            ) && entries.remove(i)[if j < i {
                j
            } else {
                j - 1
            }] == entries[j],
            None => entry_index(entries.remove(i), key) is None,
        },
{
    let rest = entries.remove(i);
    assert(forall|k: int| 0 <= k < i ==> rest[k] == entries[k]);
    assert(forall|k: int| i <= k < rest.len() ==> rest[k] == entries[k + 1]);
    match entry_index(entries, key) {
        Some(j) => {
            assert(is_first_entry(entries, key, j));
            let moved = if j < i {
                j
            } else {
                j - 1
            };
            assert forall|k: int| 0 <= k < moved implies (#[trigger] rest[k]).key@ != key by {
                if k < i {
                    assert(rest[k] == entries[k]);
                } else {
                    assert(rest[k] == entries[k + 1]);
                }
            }
            assert(is_first_entry(rest, key, moved));
            let k = choose|k: int| is_first_entry(rest, key, k);
            lemma_first_entry_unique(rest, key, moved, k);
        },
        None => {
            if exists|k: int| is_first_entry(rest, key, k) {
                let k = choose|k: int| is_first_entry(rest, key, k);
                let back = if k < i {
                    k
                } else {
                    k + 1
                };
                assert(entries[back].key@ == key);
                lemma_has_first(entries, key, back);
            }
        },
    }
}

/// A member with the key `key` makes some member the first with that key.
pub proof fn lemma_has_first<T>(entries: Seq<Entry<T>>, key: Seq<char>, i: int)
    requires
        0 <= i < entries.len(),
        entries[i].key@ == key,
    ensures
        exists|k: int| is_first_entry(entries, key, k),
    decreases i,
{
    if forall|j: int| 0 <= j < i ==> (#[trigger] entries[j]).key@ != key {
        assert(is_first_entry(entries, key, i));
    } else {
        let j = choose|j: int| 0 <= j < i && (#[trigger] entries[j]).key@ == key;
        lemma_has_first(entries, key, j);
    }
}

/// Where no key occurs twice, a member that was taken out is found no more.
pub proof fn lemma_removed_is_gone<T>(entries: Seq<Entry<T>>, i: int)
    requires
        distinct_keys(entries),
        0 <= i < entries.len(),
    ensures
        entry_index(entries.remove(i), entries[i].key@) is None,
        distinct_keys(entries.remove(i)),
{
    let key = entries[i].key@;
    let rest = entries.remove(i);
    assert(forall|k: int| 0 <= k < i ==> rest[k] == entries[k]);
    assert(forall|k: int| i <= k < rest.len() ==> rest[k] == entries[k + 1]);
    assert forall|k: int| 0 <= k < rest.len() implies (#[trigger] rest[k]).key@ != key by {
        if k < i {
            assert(entries[k].key@ != entries[i].key@);
        } else {
            assert(entries[i].key@ != entries[k + 1].key@);
        }
    }
    assert forall|a: int, b: int| 0 <= a < b < rest.len() implies (#[trigger] rest[a]).key@ != (
    #[trigger] rest[b]).key@ by {
        let x = if a < i {
            a
        } else {
            a + 1
        };
        let y = if b < i {
            b
        } else {
            b + 1
        };
        assert(entries[x].key@ != entries[y].key@);
    }
}

/// Looks up the member with the key `key`.
pub fn find_entry<T>(entries: &Vec<Entry<T>>, key: &str) -> (found: Option<usize>)
    ensures
        match found {
            Some(i) => entry_index(entries@, key@) == Some(i as int) && i < entries.len(),
            None => entry_index(entries@, key@) is None,
        },
{
    let wanted = to_chars(key);
    let mut i: usize = 0;
    while i < entries.len()
        invariant
            i <= entries.len(),
            wanted@ == key@,
            forall|j: int| 0 <= j < i ==> (#[trigger] entries@[j]).key@ != key@,
        decreases entries.len() - i,
    {
        let have = to_chars(entries[i].key.as_str());
        if chars_eq(&have, &wanted) {
            proof {
                assert(is_first_entry(entries@, key@, i as int));
                let k = choose|k: int| is_first_entry(entries@, key@, k);
                lemma_first_entry_unique(entries@, key@, i as int, k);
            }
            return Some(i);
        }
        i += 1;
    }
    None
}

} // verus!
