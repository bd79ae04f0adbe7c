//! The keys of a configuration, group by group, and what each group of
//! fields leaves untouched: writing a group changes nothing under a key that
//! is not its own.

use crate::entries::{lemma_lookup_empty, lemma_with_entry_lookup, lookup, Entries};
use crate::params::RawOptions;
use crate::resolve::{
    base_fields, collectible_fields, deep_exploration_fields, difficulty_field, elite_fields,
    general_fields, investment_fields, monthly_squad_fields, support_fields, theme_fields,
};
use vstd::prelude::*;

verus! {

/// Whether `key` is one of the keys of the general fields.
pub open spec fn general_key(key: Seq<char>) -> bool {
    ||| key == "theme"@
    ||| key == "mode"@
    ||| key == "squad"@
    ||| key == "roles"@
    ||| key == "core_char"@
    ||| key == "start_count"@
    ||| key == "stop_at_final_boss"@
    ||| key == "stop_when_deposit_full"@
    ||| key == "stop_at_max_level"@
}

/// Whether `key` is one of the keys of the investment.
pub open spec fn investment_key(key: Seq<char>) -> bool {
    ||| key == "investment_enabled"@
    ||| key == "investments_count"@
    ||| key == "investment_with_more_score"@
    ||| key == "stop_when_investment_full"@
}

/// Whether `key` is one of the two keys of the support operators.
pub open spec fn support_key(key: Seq<char>) -> bool {
    ||| key == "use_support"@
    ||| key == "use_nonfriend_support"@
}

/// Whether `key` is one of the two keys of the start at elite two.
pub open spec fn elite_key(key: Seq<char>) -> bool {
    ||| key == "start_with_elite_two"@
    ||| key == "only_start_with_elite_two"@
}

/// Whether `key` is one of the keys of mode 4.
pub open spec fn collectible_key(key: Seq<char>) -> bool {
    ||| key == "collectible_mode_squad"@
    ||| key == "collectible_mode_shopping"@
    ||| key == "collectible_mode_start_list"@
}

/// Whether `key` is one of the two keys of mode 6.
pub open spec fn monthly_squad_key(key: Seq<char>) -> bool {
    ||| key == "monthly_squad_auto_iterate"@
    ||| key == "monthly_squad_check_comms"@
}

/// Whether `key` is one of the keys of Sami theme.
pub open spec fn sami_key(key: Seq<char>) -> bool {
    ||| key == "use_foldartal"@
    ||| key == "first_floor_foldartal"@
    ||| key == "start_foldartal_list"@
    ||| key == "check_collapsal_paradigms"@
    ||| key == "double_check_collapsal_paradigms"@
    ||| key == "expected_collapsal_paradigms"@
}

/// Whether `key` is one of the keys that are written whatever the theme:
/// those of the general fields, the difficulty, and those of the investment,
/// the support operators, the start at elite two and the modes 4, 6 and 7.
pub open spec fn base_key(key: Seq<char>) -> bool {
    ||| general_key(key)
    ||| key == "difficulty"@
    ||| investment_key(key)
    ||| support_key(key)
    ||| elite_key(key)
    ||| collectible_key(key)
    ||| monthly_squad_key(key)
    ||| key == "deep_exploration_auto_iterate"@
}

/// Whether `key` is one of the keys that belong to a theme.
pub open spec fn theme_key(key: Seq<char>) -> bool {
    ||| key == "refresh_trader_with_dice"@
    ||| sami_key(key)
    ||| key == "start_with_seed"@
    ||| key == "find_playTime_target"@
}

/// The length and the first character of each key of a configuration. No
/// two keys agree in both, but for two pairs, which differ in the character
/// given for them.
pub proof fn lemma_key_shapes()
    ensures
        "theme"@.len() == 5 && "theme"@[0] == 't',
        "mode"@.len() == 4 && "mode"@[0] == 'm',
        "squad"@.len() == 5 && "squad"@[0] == 's',
        "roles"@.len() == 5 && "roles"@[0] == 'r',
        "core_char"@.len() == 9 && "core_char"@[0] == 'c',
        "start_count"@.len() == 11 && "start_count"@[0] == 's',
        "stop_at_final_boss"@.len() == 18 && "stop_at_final_boss"@[0] == 's',
        "stop_when_deposit_full"@.len() == 22 && "stop_when_deposit_full"@[0] == 's',
        "stop_at_max_level"@.len() == 17 && "stop_at_max_level"@[0] == 's',
        "difficulty"@.len() == 10 && "difficulty"@[0] == 'd',
        "investment_enabled"@.len() == 18 && "investment_enabled"@[0] == 'i',
        "investments_count"@.len() == 17 && "investments_count"@[0] == 'i',
        "investment_with_more_score"@.len() == 26 && "investment_with_more_score"@[0] == 'i',
        "stop_when_investment_full"@.len() == 25 && "stop_when_investment_full"@[0] == 's',
        "use_support"@.len() == 11 && "use_support"@[0] == 'u',
        "use_nonfriend_support"@.len() == 21 && "use_nonfriend_support"@[0] == 'u',
        "start_with_elite_two"@.len() == 20 && "start_with_elite_two"@[0] == 's',
        "only_start_with_elite_two"@.len() == 25 && "only_start_with_elite_two"@[0] == 'o',
        "collectible_mode_squad"@.len() == 22 && "collectible_mode_squad"@[0] == 'c',
        "collectible_mode_shopping"@.len() == 25 && "collectible_mode_shopping"@[0] == 'c',
        "collectible_mode_start_list"@.len() == 27 && "collectible_mode_start_list"@[0] == 'c',
        "monthly_squad_auto_iterate"@.len() == 26 && "monthly_squad_auto_iterate"@[0] == 'm',
        "monthly_squad_check_comms"@.len() == 25 && "monthly_squad_check_comms"@[0] == 'm',
        "deep_exploration_auto_iterate"@.len() == 29 && "deep_exploration_auto_iterate"@[0] == 'd',
        "refresh_trader_with_dice"@.len() == 24 && "refresh_trader_with_dice"@[0] == 'r',
        "use_foldartal"@.len() == 13 && "use_foldartal"@[0] == 'u',
        "first_floor_foldartal"@.len() == 21 && "first_floor_foldartal"@[0] == 'f',
        "start_foldartal_list"@.len() == 20 && "start_foldartal_list"@[0] == 's',
        "check_collapsal_paradigms"@.len() == 25 && "check_collapsal_paradigms"@[0] == 'c',
        "double_check_collapsal_paradigms"@.len() == 32
            && "double_check_collapsal_paradigms"@[0] == 'd',
        "expected_collapsal_paradigms"@.len() == 28 && "expected_collapsal_paradigms"@[0] == 'e',
        "start_with_seed"@.len() == 15 && "start_with_seed"@[0] == 's',
        "find_playTime_target"@.len() == 20 && "find_playTime_target"@[0] == 'f',
        "start_with_elite_two"@[6] == 'w',
        "start_foldartal_list"@[6] == 'f',
        "collectible_mode_shopping"@[1] == 'o',
        "check_collapsal_paradigms"@[1] == 'h',
{
    reveal_strlit("theme");
    reveal_strlit("mode");
    reveal_strlit("squad");
    reveal_strlit("roles");
    reveal_strlit("core_char");
    reveal_strlit("start_count");
    reveal_strlit("stop_at_final_boss");
    reveal_strlit("stop_when_deposit_full");
    reveal_strlit("stop_at_max_level");
    reveal_strlit("difficulty");
    reveal_strlit("investment_enabled");
    reveal_strlit("investments_count");
    reveal_strlit("investment_with_more_score");
    reveal_strlit("stop_when_investment_full");
    reveal_strlit("use_support");
    reveal_strlit("use_nonfriend_support");
    reveal_strlit("start_with_elite_two");
    reveal_strlit("only_start_with_elite_two");
    reveal_strlit("collectible_mode_squad");
    reveal_strlit("collectible_mode_shopping");
    reveal_strlit("collectible_mode_start_list");
    reveal_strlit("monthly_squad_auto_iterate");
    reveal_strlit("monthly_squad_check_comms");
    reveal_strlit("deep_exploration_auto_iterate");
    reveal_strlit("refresh_trader_with_dice");
    reveal_strlit("use_foldartal");
    reveal_strlit("first_floor_foldartal");
    reveal_strlit("start_foldartal_list");
    reveal_strlit("check_collapsal_paradigms");
    reveal_strlit("double_check_collapsal_paradigms");
    reveal_strlit("expected_collapsal_paradigms");
    reveal_strlit("start_with_seed");
    reveal_strlit("find_playTime_target");
}

/// The general fields change nothing under a key that is not theirs.
pub proof fn lemma_general_frame(m: Entries, o: RawOptions, key: Seq<char>)
    requires
        !general_key(key),
    ensures
        lookup(general_fields(m, o), key) == lookup(m, key),
{
    broadcast use lemma_with_entry_lookup;

}

/// The difficulty changes nothing under another key.
pub proof fn lemma_difficulty_frame(m: Entries, o: RawOptions, key: Seq<char>)
    requires
        !(key == "difficulty"@),
    ensures
        lookup(difficulty_field(m, o), key) == lookup(m, key),
{
    broadcast use lemma_with_entry_lookup;

}

/// The investment changes nothing under a key that is not its own.
pub proof fn lemma_investment_frame(m: Entries, o: RawOptions, key: Seq<char>)
    requires
        !investment_key(key),
    ensures
        lookup(investment_fields(m, o), key) == lookup(m, key),
{
    broadcast use lemma_with_entry_lookup;

}

/// The support operators change nothing under a key that is not theirs.
pub proof fn lemma_support_frame(m: Entries, o: RawOptions, key: Seq<char>)
    requires
        !support_key(key),
    ensures
        lookup(support_fields(m, o), key) == lookup(m, key),
{
    broadcast use lemma_with_entry_lookup;

}

/// The start at elite two changes nothing under a key that is not its own.
pub proof fn lemma_elite_frame(m: Entries, o: RawOptions, key: Seq<char>)
    requires
        !elite_key(key),
    ensures
        lookup(elite_fields(m, o), key) == lookup(m, key),
{
    broadcast use lemma_with_entry_lookup;

}

/// The fields of mode 4 change nothing under a key that is not theirs.
pub proof fn lemma_collectible_frame(m: Entries, o: RawOptions, key: Seq<char>)
    requires
        !collectible_key(key),
    ensures
        lookup(collectible_fields(m, o), key) == lookup(m, key),
{
    broadcast use lemma_with_entry_lookup;

}

/// The fields of mode 6 change nothing under a key that is not theirs.
pub proof fn lemma_monthly_squad_frame(m: Entries, o: RawOptions, key: Seq<char>)
    requires
        !monthly_squad_key(key),
    ensures
        lookup(monthly_squad_fields(m, o), key) == lookup(m, key),
{
    broadcast use lemma_with_entry_lookup;

}

/// The field of mode 7 changes nothing under another key.
pub proof fn lemma_deep_exploration_frame(m: Entries, o: RawOptions, key: Seq<char>)
    requires
        !(key == "deep_exploration_auto_iterate"@),
    ensures
        lookup(deep_exploration_fields(m, o), key) == lookup(m, key),
{
    broadcast use lemma_with_entry_lookup;

}

/// Under a key that is written for no theme in particular nothing is found
/// among the fields that are.
pub proof fn lemma_theme_frame(m: Entries, o: RawOptions, key: Seq<char>)
    requires
        !theme_key(key),
    ensures
        theme_fields(m, o) matches Ok(entries) ==> lookup(entries, key) == lookup(m, key),
{
    broadcast use lemma_with_entry_lookup;

}

/// Under a key that belongs to a theme nothing is found among the fields
/// that are written whatever the theme.
pub proof fn lemma_base_frame(o: RawOptions, key: Seq<char>)
    requires
        !base_key(key),
    ensures
        lookup(base_fields(o), key) is None,
{
    let m0 = Seq::empty();
    let m1 = general_fields(m0, o);
    let m2 = difficulty_field(m1, o);
    let m3 = investment_fields(m2, o);
    let m4 = support_fields(m3, o);
    let m5 = elite_fields(m4, o);
    let m6 = collectible_fields(m5, o);
    let m7 = monthly_squad_fields(m6, o);
    lemma_lookup_empty(key);
    lemma_general_frame(m0, o, key);
    lemma_difficulty_frame(m1, o, key);
    lemma_investment_frame(m2, o, key);
    lemma_support_frame(m3, o, key);
    lemma_elite_frame(m4, o, key);
    lemma_collectible_frame(m5, o, key);
    lemma_monthly_squad_frame(m6, o, key);
    lemma_deep_exploration_frame(m7, o, key);
}

} // verus!
