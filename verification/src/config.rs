//! Configuration values and the ordered map that holds them.

use crate::entries::{
    absent, distinct_keys, first_at, has_key, lemma_absent, lemma_first_at,
    lemma_with_entry_distinct, lookup, with_entry, Entries, ValueView,
};
use crate::text::{copy_texts, texts};
use vstd::prelude::*;

verus! {

/// A dynamically typed value of a configuration.
#[derive(Debug, PartialEq, Eq)]
pub enum Value {
    Bool(bool),
    Int(i32),
    Text(String),
    List(Vec<String>),
    Object(ConfigurationMap),
}

/// A key of a configuration with the value stored under it.
#[derive(Debug, PartialEq, Eq)]
struct Entry {
    key: String,
    value: Value,
}

/// An ordered mapping from keys to values in which no key occurs twice.
///
/// Its view is the sequence of its entries in insertion order. Two maps are
/// equal under `==` when they hold equal entries in the same order.
#[derive(Debug, PartialEq, Eq)]
pub struct ConfigurationMap {
    entries: Vec<Entry>,
}

/// What a value holds, as plain mathematics.
pub open spec fn value_view(value: Value) -> ValueView
    decreases value,
{
    match value {
        Value::Bool(b) => ValueView::Bool(b),
        Value::Int(i) => ValueView::Int(i as int),
        Value::Text(s) => ValueView::Text(s@),
        Value::List(l) => ValueView::List(texts(l@)),
        Value::Object(m) => ValueView::Object(m@),
    }
}

/// What a sequence of entries holds: each key with what its value holds.
spec fn entries_view(entries: Seq<Entry>) -> Entries
    decreases entries,
{
    if entries.len() == 0 {
        Seq::empty()
    } else {
        entries_view(entries.drop_last()).push(
            (entries.last().key@, value_view(entries.last().value)),
        )
    }
}

/// The view of a sequence of entries, entry by entry.
proof fn lemma_entries_view(entries: Seq<Entry>)
    ensures
        entries_view(entries).len() == entries.len(),
        forall|i: int|
            0 <= i < entries.len() ==> #[trigger] entries_view(entries)[i] == (
                entries[i].key@,
                value_view(entries[i].value),
            ),
    decreases entries.len(),
{
    if entries.len() > 0 {
        lemma_entries_view(entries.drop_last());
    }
}

impl View for Value {
    type V = ValueView;

    open spec fn view(&self) -> ValueView {
        value_view(*self)
    }
}

impl View for ConfigurationMap {
    type V = Entries;

    closed spec fn view(&self) -> Entries
        decreases self,
    {
        entries_view(self.entries@)
    }
}

impl ConfigurationMap {
    /// What holds of every configuration: no key occurs twice.
    #[verifier::type_invariant]
    pub open spec fn well_formed(&self) -> bool {
        distinct_keys(self@)
    }

    /// A configuration without entries.
    pub fn new() -> (map: ConfigurationMap)
        ensures
            map@ == Seq::<(Seq<char>, ValueView)>::empty(),
    {
        proof {
            reveal(distinct_keys);
        }
        ConfigurationMap { entries: Vec::new() }
    }

    /// The number of entries.
    pub fn len(&self) -> (n: usize)
        ensures
            n == self@.len(),
    {
        proof {
            lemma_entries_view(self.entries@);
        }
        self.entries.len()
    }

    /// Whether the configuration has no entries.
    pub fn is_empty(&self) -> (empty: bool)
        ensures
            empty == (self@.len() == 0),
    {
        self.len() == 0
    }

    /// The key of the entry at `index`, counted in insertion order.
    pub fn key_at(&self, index: usize) -> (key: &str)
        requires
            index < self@.len(),
        ensures
            key@ == self@[index as int].0,
    {
        proof {
            lemma_entries_view(self.entries@);
        }
        self.entries[index].key.as_str()
    }

    /// The value of the entry at `index`, counted in insertion order.
    pub fn value_at(&self, index: usize) -> (value: &Value)
        requires
            index < self@.len(),
        ensures
            value@ == self@[index as int].1,
    {
        proof {
            lemma_entries_view(self.entries@);
        }
        &self.entries[index].value
    }

    /// The position of the entry under `key`, if there is one.
    fn position(&self, key: &String) -> (found: Option<usize>)
        ensures
            match found {
                Some(i) => first_at(self@, key@, i as int),
                None => absent(self@, key@),
            },
    {
        proof {
            lemma_entries_view(self.entries@);
        }
        let mut i: usize = 0;
        while i < self.entries.len()
            invariant
                i <= self.entries.len(),
                self@.len() == self.entries.len(),
                forall|j: int| 0 <= j < i ==> (#[trigger] self@[j]).0 != key@,
                forall|j: int|
                    0 <= j < self.entries.len() ==> #[trigger] self@[j] == (
                        self.entries[j].key@,
                        value_view(self.entries[j].value),
                    ),
            decreases self.entries.len() - i,
        {
            if self.entries[i].key == *key {
                assert(self@[i as int].0 == key@);
                return Some(i);
            }
            assert(self@[i as int].0 != key@);
            i += 1;
        }
        None
    }

    /// Whether an entry stands under `key`.
    pub fn contains_key(&self, key: &str) -> (found: bool)
        ensures
            found == has_key(self@, key@),
    {
        let key = key.to_owned();
        let found = self.position(&key);
        proof {
            match found {
                Some(i) => lemma_first_at(self@, key@, i as int),
                None => lemma_absent(self@, key@),
            }
        }
        found.is_some()
    }

    /// The value stored under `key`, if there is one.
    pub fn get(&self, key: &str) -> (value: Option<&Value>)
        ensures
            match value {
                Some(v) => lookup(self@, key@) == Some(v@),
                None => lookup(self@, key@) is None,
            },
    {
        proof {
            lemma_entries_view(self.entries@);
        }
        let key = key.to_owned();
        match self.position(&key) {
            Some(i) => {
                proof {
                    lemma_first_at(self@, key@, i as int);
                }
                Some(&self.entries[i].value)
            },
            None => {
                proof {
                    lemma_absent(self@, key@);
                }
                None
            },
        }
    }

    /// Stores `value` under `key`. A key that is already there keeps its
    /// place and takes the new value; a new key goes to the end.
    pub fn insert(&mut self, key: &str, value: Value)
        ensures
            final(self)@ == with_entry(old(self)@, key@, value@),
    {
        proof {
            use_type_invariant(&*self);
            lemma_entries_view(self.entries@);
            lemma_with_entry_distinct(self@, key@, value@);
            assert(distinct_keys(Seq::empty())) by {
                reveal(distinct_keys);
            }
        }
        let key = key.to_owned();
        let found = self.position(&key);
        let mut entries: Vec<Entry> = Vec::new();
        core::mem::swap(&mut self.entries, &mut entries);
        match found {
            Some(i) => {
                proof {
                    lemma_first_at(old(self)@, key@, i as int);
                }
                entries.set(i, Entry { key, value });
            },
            None => {
                proof {
                    lemma_absent(old(self)@, key@);
                }
                entries.push(Entry { key, value });
            },
        }
        proof {
            lemma_entries_view(entries@);
            assert(entries_view(entries@) =~= with_entry(old(self)@, key@, value@));
        }
        core::mem::swap(&mut self.entries, &mut entries);
    }
}

impl Clone for Value {
    fn clone(&self) -> (copy: Value)
        ensures
            copy@ == self@,
        decreases self,
    {
        match self {
            Value::Bool(b) => Value::Bool(*b),
            Value::Int(i) => Value::Int(*i),
            Value::Text(s) => Value::Text(s.clone()),
            Value::List(l) => Value::List(copy_texts(l)),
            Value::Object(m) => Value::Object(m.clone()),
        }
    }
}

impl Clone for ConfigurationMap {
    fn clone(&self) -> (copy: ConfigurationMap)
        ensures
            copy@ == self@,
        decreases self,
    {
        proof {
            use_type_invariant(self);
            lemma_entries_view(self.entries@);
        }
        let mut entries: Vec<Entry> = Vec::new();
        let mut i: usize = 0;
        while i < self.entries.len()
            invariant
                i <= self.entries.len(),
                entries_view(entries@) =~= self@.take(i as int),
            decreases self.entries.len() - i,
        {
            let entry = &self.entries[i];
            let key = entry.key.clone();
            let value = entry.value.clone();
            let ghost copied = entries@;
            entries.push(Entry { key, value });
            proof {
                lemma_entries_view(self.entries@);
                assert(entries@.drop_last() =~= copied);
                assert(self@[i as int] == (key@, value@));
                assert(entries_view(entries@) =~= entries_view(copied).push((key@, value@)));
            }
            i += 1;
        }
        proof {
            assert(self@.take(self.entries.len() as int) =~= self@);
        }
        ConfigurationMap { entries }
    }
}

} // verus!
