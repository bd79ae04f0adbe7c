//! A configuration as plain mathematics: the sequence of its entries, each a
//! key with the value stored under it, in the order in which the keys were
//! first stored.

use vstd::prelude::*;

verus! {

/// What a configuration value is, as plain mathematics.
pub enum ValueView {
    Bool(bool),
    Int(int),
    Text(Seq<char>),
    List(Seq<Seq<char>>),
    Object(Seq<(Seq<char>, ValueView)>),
}

/// The entries of a configuration: keys with their values, in insertion order.
pub type Entries = Seq<(Seq<char>, ValueView)>;

/// The keys of the entries, in order.
pub open spec fn keys(entries: Entries) -> Seq<Seq<char>> {
    entries.map_values(|e: (Seq<char>, ValueView)| e.0)
}

/// Whether some entry stands under `key`.
pub open spec fn has_key(entries: Entries, key: Seq<char>) -> bool {
    lookup(entries, key) is Some
}

/// Whether no key occurs twice.
#[verifier::opaque]
pub open spec fn distinct_keys(entries: Entries) -> bool {
    keys(entries).no_duplicates()
}

/// The value of the first entry under `key`, if there is one.
#[verifier::opaque]
pub open spec fn lookup(entries: Entries, key: Seq<char>) -> Option<ValueView> {
    match keys(entries).index_of_first(key) {
        Some(i) => Some(entries[i].1),
        None => None,
    }
}

/// The entries after `value` has been stored under `key`: an entry that is
/// already there keeps its place and takes the new value, a new one goes to
/// the end.
#[verifier::opaque]
pub open spec fn with_entry(entries: Entries, key: Seq<char>, value: ValueView) -> Entries {
    match keys(entries).index_of_first(key) {
        Some(i) => entries.update(i, (key, value)),
        None => entries.push((key, value)),
    }
}

/// Describes the first entry under `key` by its position: `key` stands at
/// `i` and nowhere before it.
pub open spec fn first_at(entries: Entries, key: Seq<char>, i: int) -> bool {
    &&& 0 <= i < entries.len()
    &&& entries[i].0 == key
    &&& forall|j: int| 0 <= j < i ==> (#[trigger] entries[j]).0 != key
}

/// Says that no entry stands under `key`.
pub open spec fn absent(entries: Entries, key: Seq<char>) -> bool {
    forall|j: int| 0 <= j < entries.len() ==> (#[trigger] entries[j]).0 != key
}

/// The first entry under a key is found by `lookup` and replaced by
/// `with_entry`.
pub proof fn lemma_first_at(entries: Entries, key: Seq<char>, i: int)
    requires
        first_at(entries, key, i),
    ensures
        has_key(entries, key),
        keys(entries).index_of_first(key) == Some(i),
        lookup(entries, key) == Some(entries[i].1),
        forall|value: ValueView| #[trigger]
            with_entry(entries, key, value) == entries.update(i, (key, value)),
{
    reveal(lookup);
    reveal(with_entry);
    let ks = keys(entries);
    ks.index_of_first_ensures(key);
    assert(ks[i] == key);
    let found = ks.index_of_first(key).unwrap();
    assert(ks[found] == key);
    if found < i {
        assert(entries[found].0 != key);
    }
    if i < found {
        assert(ks[i] != key);
    }
}

/// A key that stands nowhere is not found by `lookup`, and `with_entry` adds
/// it at the end.
pub proof fn lemma_absent(entries: Entries, key: Seq<char>)
    requires
        absent(entries, key),
    ensures
        !has_key(entries, key),
        keys(entries).index_of_first(key) is None,
        lookup(entries, key) is None,
        forall|value: ValueView| #[trigger]
            with_entry(entries, key, value) == entries.push((key, value)),
{
    reveal(lookup);
    reveal(with_entry);
    let ks = keys(entries);
    ks.index_of_first_ensures(key);
    if ks.contains(key) {
        let j = choose|j: int| 0 <= j < ks.len() && ks[j] == key;
        assert(entries[j].0 == key);
    }
}

/// Every key either stands nowhere or has a first entry.
pub proof fn lemma_first_or_absent(entries: Entries, key: Seq<char>)
    ensures
        match keys(entries).index_of_first(key) {
            Some(i) => first_at(entries, key, i),
            None => absent(entries, key),
        },
{
    let ks = keys(entries);
    ks.index_of_first_ensures(key);
    match ks.index_of_first(key) {
        Some(i) => {
            assert(ks[i] == key);
            assert forall|j: int| 0 <= j < i implies (#[trigger] entries[j]).0 != key by {
                assert(ks[j] != key);
            }
        },
        None => {
            assert forall|j: int| 0 <= j < entries.len() implies (#[trigger] entries[j]).0
                != key by {
                assert(ks[j] == entries[j].0);
                assert(ks.contains(ks[j]));
            }
        },
    }
}

/// Nothing is found among no entries.
pub broadcast proof fn lemma_lookup_empty(key: Seq<char>)
    ensures
        #[trigger] lookup(Seq::empty(), key) is None,
{
    lemma_absent(Seq::empty(), key);
}

/// Storing a value under a key changes what is found under that key and
/// under no other.
pub broadcast proof fn lemma_with_entry_lookup(
    entries: Entries,
    key: Seq<char>,
    value: ValueView,
    other: Seq<char>,
)
    ensures
        #[trigger] lookup(with_entry(entries, key, value), other) == if other == key {
            Some(value)
        } else {
            lookup(entries, other)
        },
{
    let after = with_entry(entries, key, value);
    lemma_first_or_absent(entries, key);
    lemma_first_or_absent(entries, other);
    match keys(entries).index_of_first(key) {
        Some(i) => {
            lemma_first_at(entries, key, i);
            assert(after == entries.update(i, (key, value)));
            match keys(entries).index_of_first(other) {
                Some(k) => {
                    assert(first_at(after, other, k));
                    lemma_first_at(after, other, k);
                    lemma_first_at(entries, other, k);
                },
                None => {
                    assert(absent(after, other));
                    lemma_absent(after, other);
                    lemma_absent(entries, other);
                },
            }
        },
        None => {
            lemma_absent(entries, key);
            assert(after == entries.push((key, value)));
            match keys(entries).index_of_first(other) {
                Some(k) => {
                    assert(first_at(after, other, k));
                    lemma_first_at(after, other, k);
                    lemma_first_at(entries, other, k);
                },
                None => {
                    lemma_absent(entries, other);
                    if other == key {
                        assert(first_at(after, key, entries.len() as int));
                        lemma_first_at(after, key, entries.len() as int);
                    } else {
                        assert(absent(after, other));
                        lemma_absent(after, other);
                    }
                },
            }
        },
    }
}

/// Storing a value adds an entry for a new key, and none for a key that is
/// already there.
pub proof fn lemma_with_entry_len(entries: Entries, key: Seq<char>, value: ValueView)
    ensures
        with_entry(entries, key, value).len() == if has_key(entries, key) {
            entries.len()
        } else {
            entries.len() + 1
        },
{
    lemma_first_or_absent(entries, key);
    match keys(entries).index_of_first(key) {
        Some(i) => lemma_first_at(entries, key, i),
        None => lemma_absent(entries, key),
    }
}

/// Storing a value keeps the keys distinct.
pub broadcast proof fn lemma_with_entry_distinct(
    entries: Entries,
    key: Seq<char>,
    value: ValueView,
)
    requires
        distinct_keys(entries),
    ensures
        #[trigger] distinct_keys(with_entry(entries, key, value)),
{
    reveal(distinct_keys);
    let after = with_entry(entries, key, value);
    lemma_first_or_absent(entries, key);
    match keys(entries).index_of_first(key) {
        Some(i) => {
            lemma_first_at(entries, key, i);
            assert(keys(after) =~= keys(entries));
        },
        None => {
            lemma_absent(entries, key);
            let ks = keys(after);
            assert forall|a: int, b: int|
                0 <= a < ks.len() && 0 <= b < ks.len() && a != b implies ks[a] != ks[b] by {
                if a < entries.len() && b < entries.len() {
                    assert(keys(entries)[a] != keys(entries)[b]);
                } else if a < entries.len() {
                    assert(entries[a].0 != key);
                } else {
                    assert(entries[b].0 != key);
                }
            }
        },
    }
}

} // verus!
