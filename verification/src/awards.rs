//! The start awards of the collectible mode: a list of names divided by
//! commas, of which each known name selects an award.

use crate::config::{ConfigurationMap, Value};
use crate::entries::{
    lemma_lookup_empty, lemma_with_entry_len, lemma_with_entry_lookup, lookup, with_entry,
    Entries, ValueView,
};
use crate::text::{fields, same_text, slice_texts, split, texts, trim, trimmed};
use vstd::prelude::*;

verus! {

/// The key under which the award of a given name is written, if the name is
/// known. The name `idea` is written as `ideas`; every other known name is
/// its own key.
pub open spec fn award_key(name: Seq<char>) -> Option<Seq<char>> {
    if name == "hot_water"@ {
        Some("hot_water"@)
    } else if name == "shield"@ {
        Some("shield"@)
    } else if name == "ingot"@ {
        Some("ingot"@)
    } else if name == "hope"@ {
        Some("hope"@)
    } else if name == "random"@ {
        Some("random"@)
    } else if name == "key"@ {
        Some("key"@)
    } else if name == "dice"@ {
        Some("dice"@)
    } else if name == "idea"@ {
        Some("ideas"@)
    } else if name == "ticket"@ {
        Some("ticket"@)
    } else {
        None
    }
}

/// The names that a list of awards holds: its fields between commas, each
/// without the white space around it.
pub open spec fn award_names(list: Seq<char>) -> Seq<Seq<char>> {
    fields(list, ',').map_values(|field: Seq<char>| trimmed(field))
}

/// The entries after the award of the given name has been selected: a known
/// name sets its key to `true`, any other name changes nothing.
pub open spec fn select_award(entries: Entries, name: Seq<char>) -> Entries {
    match award_key(name) {
        Some(key) => with_entry(entries, key, ValueView::Bool(true)),
        None => entries,
    }
}

/// The entries that a sequence of names selects, taken one after the other.
pub open spec fn selected_awards(names: Seq<Seq<char>>) -> Entries {
    names.fold_left(Seq::empty(), |entries: Entries, name: Seq<char>| select_award(entries, name))
}

/// Whether a name is neither empty nor known.
pub open spec fn unknown_award(name: Seq<char>) -> bool {
    name.len() > 0 && award_key(name) is None
}

/// The names of a sequence that are neither empty nor known, in their order.
pub open spec fn unknown_awards(names: Seq<Seq<char>>) -> Seq<Seq<char>> {
    names.filter(|name: Seq<char>| unknown_award(name))
}

/// Whether one of the names is the name of the award written under `key`.
pub open spec fn selects(names: Seq<Seq<char>>, key: Seq<char>) -> bool {
    exists|i: int| 0 <= i < names.len() && award_key(#[trigger] names[i]) == Some(key)
}

/// The awards that a sequence of names selects hold `true` under the key of
/// each known name of the sequence, and nothing under any other key.
pub proof fn lemma_selected_awards(names: Seq<Seq<char>>, key: Seq<char>)
    ensures
        lookup(selected_awards(names), key) == if selects(names, key) {
            Some(ValueView::Bool(true))
        } else {
            None
        },
    decreases names.len(),
{
    broadcast use {lemma_with_entry_lookup, lemma_lookup_empty};

    if names.len() > 0 {
        let before = names.drop_last();
        lemma_selected_awards(before, key);
        assert(selected_awards(names) == select_award(selected_awards(before), names.last()));
        if selects(before, key) {
            let i = choose|i: int|
                0 <= i < before.len() && award_key(#[trigger] before[i]) == Some(key);
            assert(award_key(names[i]) == Some(key));
        }
        if award_key(names.last()) == Some(key) {
            assert(award_key(names[names.len() - 1]) == Some(key));
        }
        if selects(names, key) {
            let i = choose|i: int|
                0 <= i < names.len() && award_key(#[trigger] names[i]) == Some(key);
            if i < before.len() {
                assert(award_key(before[i]) == Some(key));
            }
        }
    }
}

/// Whether one of the names is known.
pub open spec fn some_known(names: Seq<Seq<char>>) -> bool {
    exists|i: int| 0 <= i < names.len() && award_key(#[trigger] names[i]) is Some
}

/// Some award is selected exactly when one of the names is known.
pub proof fn lemma_some_award_selected(names: Seq<Seq<char>>)
    ensures
        selected_awards(names).len() > 0 <==> some_known(names),
    decreases names.len(),
{
    if names.len() == 0 {
        assert(selected_awards(names) =~= Seq::empty());
    } else {
        let before = names.drop_last();
        lemma_some_award_selected(before);
        assert(selected_awards(names) == select_award(selected_awards(before), names.last()));
        if some_known(before) {
            let i = choose|i: int| 0 <= i < before.len() && award_key(#[trigger] before[i]) is Some;
            assert(award_key(names[i]) is Some);
        }
        match award_key(names.last()) {
            Some(key) => {
                lemma_with_entry_len(selected_awards(before), key, ValueView::Bool(true));
                if selected_awards(before).len() == 0 {
                    assert(selected_awards(before) =~= Seq::empty());
                    lemma_lookup_empty(key);
                }
                assert(award_key(names[names.len() - 1]) is Some);
            },
            None => {
                if some_known(names) {
                    let i = choose|i: int|
                        0 <= i < names.len() && award_key(#[trigger] names[i]) is Some;
                    assert(award_key(before[i]) is Some);
                }
            },
        }
    }
}

/// The key under which the award of a given name is written, if the name is
/// known.
pub fn canonical_award(name: &str) -> (key: Option<&'static str>)
    ensures
        match key {
            Some(k) => award_key(name@) == Some(k@),
            None => award_key(name@) is None,
        },
{
    if same_text(name, "hot_water") {
        Some("hot_water")
    } else if same_text(name, "shield") {
        Some("shield")
    } else if same_text(name, "ingot") {
        Some("ingot")
    } else if same_text(name, "hope") {
        Some("hope")
    } else if same_text(name, "random") {
        Some("random")
    } else if same_text(name, "key") {
        Some("key")
    } else if same_text(name, "dice") {
        Some("dice")
    } else if same_text(name, "idea") {
        Some("ideas")
    } else if same_text(name, "ticket") {
        Some("ticket")
    } else {
        None
    }
}

/// Reads a list of awards. The first result holds `true` under the key of
/// each known name of the list; the second holds the names that are neither
/// empty nor known, in the order of the list.
pub fn parse_awards(list: &str) -> (parsed: (ConfigurationMap, Vec<String>))
    ensures
        parsed.0@ == selected_awards(award_names(list@)),
        texts(parsed.1@) == unknown_awards(award_names(list@)),
{
    let parts = split(list, ',');
    let ghost names = award_names(list@);
    let mut awards = ConfigurationMap::new();
    let mut unknown: Vec<String> = Vec::new();
    let mut i: usize = 0;
    assert(names.take(0) =~= Seq::empty());
    assert(texts(unknown@) =~= Seq::empty());
    while i < parts.len()
        invariant
            i <= parts.len(),
            names == award_names(list@),
            slice_texts(parts@) == fields(list@, ','),
            awards@ == selected_awards(names.take(i as int)),
            texts(unknown@) == unknown_awards(names.take(i as int)),
        decreases parts.len() - i,
    {
        let name = trim(parts[i]);
        proof {
            assert(slice_texts(parts@)[i as int] == parts@[i as int]@);
            assert(names[i as int] == name@);
            assert(names.take(i + 1).drop_last() =~= names.take(i as int));
            assert(names.take(i + 1).last() == name@);
            reveal(Seq::filter);
        }
        let ghost unknown_before = texts(unknown@);
        match canonical_award(name) {
            Some(key) => {
                awards.insert(key, Value::Bool(true));
            },
            None => {
                if !name.is_empty() {
                    unknown.push(name.to_owned());
                    assert(texts(unknown@) =~= unknown_before.push(name@));
                }
            },
        }
        i += 1;
    }
    assert(names.take(parts.len() as int) =~= names);
    (awards, unknown)
}

} // verus!
