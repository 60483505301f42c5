//! Lookup by a text key in a list kept in configuration order: the first
//! entry with the key wins.

use vstd::prelude::*;

use crate::helpers::text::same_text;

verus! {

/// An entry that is looked up by a text key.
pub trait Keyed {
    /// The key of the entry.
    spec fn key(&self) -> Seq<char>;

    /// The key of the entry, as text.
    fn key_text(&self) -> (text: &str)
        ensures
            text@ == self.key(),
    ;
}

/// The position of the first of `keys` that is `key`, or `None` where none is.
pub open spec fn first_index(keys: Seq<Seq<char>>, key: Seq<char>) -> Option<int> {
    keys.index_of_first(key)
}

/// `first_index` gives `Some(i)` exactly for the least position `i` that holds
/// the key, and `None` exactly where no position holds it.
pub proof fn lemma_first_index(keys: Seq<Seq<char>>, key: Seq<char>)
    ensures
        match first_index(keys, key) {
            Some(i) => {
                &&& 0 <= i < keys.len()
                &&& keys[i] == key
                &&& forall|j: int| 0 <= j < i ==> keys[j] != key
            },
            None => forall|j: int| 0 <= j < keys.len() ==> keys[j] != key,
        },
{
    keys.index_of_first_ensures(key);
    if first_index(keys, key) is None {
        assert forall|j: int| 0 <= j < keys.len() implies keys[j] != key by {
            assert(keys.contains(keys[j]));
        }
    }
}

/// The position that holds the key with no position before it doing so is
/// what `first_index` gives.
pub proof fn lemma_first_index_is(keys: Seq<Seq<char>>, key: Seq<char>, i: int)
    requires
        0 <= i < keys.len(),
        keys[i] == key,
        forall|j: int| 0 <= j < i ==> keys[j] != key,
    ensures
        first_index(keys, key) == Some(i),
{
    lemma_first_index(keys, key);
}

/// The keys of `entries`, in order.
pub open spec fn keys<T: Keyed>(entries: Seq<T>) -> Seq<Seq<char>> {
    entries.map_values(|entry: T| entry.key())
}

/// The position of the first of `entries` whose key is `key`, or `None` where
/// no entry has that key.
pub open spec fn first_with_key<T: Keyed>(entries: Seq<T>, key: Seq<char>) -> Option<int> {
    first_index(keys(entries), key)
}

/// `first_with_key` gives `Some(i)` exactly for the least position `i` whose
/// entry has the key, and `None` exactly where no entry has it.
pub proof fn lemma_first_with_key<T: Keyed>(entries: Seq<T>, key: Seq<char>)
    ensures
        match first_with_key(entries, key) {
            Some(i) => {
                &&& 0 <= i < entries.len()
                &&& entries[i].key() == key
                &&& forall|j: int| 0 <= j < i ==> entries[j].key() != key
            },
            None => forall|j: int| 0 <= j < entries.len() ==> entries[j].key() != key,
        },
{
    let all = keys(entries);
    lemma_first_index(all, key);
    match first_index(all, key) {
        Some(i) => {
            assert forall|j: int| 0 <= j < i implies entries[j].key() != key by {
                assert(all[j] != key);
            }
        },
        None => {
            assert forall|j: int| 0 <= j < entries.len() implies entries[j].key() != key by {
                assert(all[j] != key);
            }
        },
    }
}

/// Whatever holds the key first is what `first_with_key` finds.
pub proof fn lemma_first_with_key_is<T: Keyed>(entries: Seq<T>, key: Seq<char>, i: int)
    requires
        0 <= i < entries.len(),
        entries[i].key() == key,
        forall|j: int| 0 <= j < i ==> entries[j].key() != key,
    ensures
        first_with_key(entries, key) == Some(i),
{
    let all = keys(entries);
    assert forall|j: int| 0 <= j < i implies all[j] != key by {
        assert(entries[j].key() != key);
    }
    lemma_first_index_is(all, key, i);
}

/// Finds the first of `entries` whose key is `key`.
pub fn find_first<T: Keyed>(entries: &Vec<T>, key: &str) -> (found: Option<usize>)
    ensures
        match found {
            Some(i) => i < entries.len() && first_with_key(entries@, key@) == Some(i as int),
            None => first_with_key(entries@, key@) is None,
        },
{
    let mut i: usize = 0;
    while i < entries.len()
        invariant
            i <= entries.len(),
            forall|j: int| 0 <= j < i ==> entries@[j].key() != key@,
        decreases entries.len() - i,
    {
        if same_text(entries[i].key_text(), key) {
            proof {
                lemma_first_with_key_is(entries@, key@, i as int);
            }
            return Some(i);
        }
        i += 1;
    }
    proof {
        lemma_first_with_key(entries@, key@);
    }
    None
}

} // verus!
