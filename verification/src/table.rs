//! The resolution as a table: for each key, when the configuration holds it
//! and with what value; and for each error, on which parameters it comes.
//! The table is proved to say the same as `configuration`.

use crate::awards::{award_names, selected_awards};
use crate::entries::{lemma_lookup_empty, lemma_with_entry_lookup, lookup, Entries, ValueView};
use crate::error::ParamError;
use crate::keys::{
    base_key, collectible_key, elite_key, general_key, investment_key, lemma_base_frame,
    lemma_collectible_frame, lemma_deep_exploration_frame, lemma_difficulty_frame,
    lemma_elite_frame, lemma_general_frame, lemma_investment_frame, lemma_key_shapes,
    lemma_monthly_squad_frame, lemma_support_frame, lemma_theme_frame, monthly_squad_key,
    support_key, theme_key,
};
use crate::params::RawOptions;
use crate::resolve::{
    base_fields, collectible_fields, difficulty_field, elite_fields, general_fields,
    investment_fields, monthly_squad_fields, configuration, support_fields,
};
use crate::theme::Theme;
use vstd::prelude::*;

verus! {

/// A text that may be missing, as a value.
pub open spec fn text_value(text: Option<Seq<char>>) -> Option<ValueView> {
    match text {
        Some(text) => Some(ValueView::Text(text)),
        None => None,
    }
}

/// A number that may be missing, as a value.
pub open spec fn int_value(number: Option<int>) -> Option<ValueView> {
    match number {
        Some(number) => Some(ValueView::Int(number)),
        None => None,
    }
}

/// The value, if the condition holds.
pub open spec fn only_if(condition: bool, value: Option<ValueView>) -> Option<ValueView> {
    if condition {
        value
    } else {
        None
    }
}

/// The start awards that a list selects, if it selects any.
pub open spec fn start_awards(list: Option<Seq<char>>) -> Option<ValueView> {
    match list {
        Some(list) => only_if(
            selected_awards(award_names(list)).len() > 0,
            Some(ValueView::Object(selected_awards(award_names(list)))),
        ),
        None => None,
    }
}

/// The starting foldartals of Sami theme: those of the second new squad
/// where they were asked for and given, else the general ones where any were
/// given.
pub open spec fn start_foldartals(o: RawOptions) -> Option<ValueView> {
    if o.sami_new_squad2_starting_foldartal && o.sami_new_squad2_starting_foldartals.len() > 0 {
        Some(ValueView::List(o.sami_new_squad2_starting_foldartals))
    } else if o.start_foldartals.len() > 0 {
        Some(ValueView::List(o.start_foldartals))
    } else {
        None
    }
}

/// Why the parameters are rejected, if they are: for a mode that cannot be
/// chosen with the theme, or for an input that the theme requires in this
/// mode and that is missing or out of range.
pub open spec fn rejection(o: RawOptions) -> Option<ParamError> {
    if o.mode == 5 && o.theme != Theme::Sami {
        Some(ParamError::ModeRequiresSami)
    } else if o.mode == 20001 && o.theme != Theme::JieGarden {
        Some(ParamError::ModeRequiresJieGarden)
    } else if !(0 <= o.mode <= 7) && o.mode != 20001 {
        Some(ParamError::ModeOutOfRange)
    } else if o.mode == 5 && o.expected_collapsal_paradigms.len() == 0 {
        Some(ParamError::MissingParadigms)
    } else if o.theme == Theme::Sarkaz && o.mode == 1 && o.start_with_seed && o.seed is None {
        Some(ParamError::MissingSeed)
    } else if o.mode == 20001 && o.find_playtime_target is None {
        Some(ParamError::MissingTarget)
    } else if o.mode == 20001 && !(1 <= o.find_playtime_target->0 <= 3) {
        Some(ParamError::TargetOutOfRange)
    } else {
        None
    }
}

/// What the configuration of parameters that are accepted holds under `key`.
pub open spec fn field(o: RawOptions, key: Seq<char>) -> Option<ValueView> {
    let investing = !o.disable_investment;
    let sami = o.theme == Theme::Sami;
    if key == "theme"@ {
        Some(ValueView::Text(o.theme.name()))
    } else if key == "mode"@ {
        Some(ValueView::Int(o.mode))
    } else if key == "squad"@ {
        text_value(o.squad)
    } else if key == "roles"@ {
        text_value(o.roles)
    } else if key == "core_char"@ {
        text_value(o.core_char)
    } else if key == "start_count"@ {
        int_value(o.start_count)
    } else if key == "stop_at_final_boss"@ {
        Some(ValueView::Bool(o.stop_at_final_boss))
    } else if key == "stop_when_deposit_full"@ {
        Some(ValueView::Bool(o.stop_when_deposit_full))
    } else if key == "stop_at_max_level"@ {
        Some(ValueView::Bool(o.stop_when_level_max))
    } else if key == "difficulty"@ {
        only_if(o.theme != Theme::Phantom, int_value(o.difficulty))
    } else if key == "investment_enabled"@ {
        Some(ValueView::Bool(investing))
    } else if key == "investments_count"@ {
        only_if(investing, int_value(o.investments_count))
    } else if key == "investment_with_more_score"@ {
        only_if(investing, Some(ValueView::Bool(o.investment_with_more_score)))
    } else if key == "stop_when_investment_full"@ {
        only_if(investing, Some(ValueView::Bool(!o.no_stop_when_investment_full)))
    } else if key == "use_support"@ {
        Some(ValueView::Bool(o.use_support))
    } else if key == "use_nonfriend_support"@ {
        Some(ValueView::Bool(o.use_nonfriend_support))
    } else if key == "start_with_elite_two"@ {
        only_if(o.start_with_elite_two, Some(ValueView::Bool(true)))
    } else if key == "only_start_with_elite_two"@ {
        only_if(o.start_with_elite_two, Some(ValueView::Bool(o.only_start_with_elite_two)))
    } else if key == "collectible_mode_squad"@ {
        only_if(o.mode == 4, text_value(o.collectible_squad))
    } else if key == "collectible_mode_shopping"@ {
        only_if(o.mode == 4, Some(ValueView::Bool(o.collectible_shopping)))
    } else if key == "collectible_mode_start_list"@ {
        only_if(o.mode == 4, start_awards(o.collectible_start_awards))
    } else if key == "monthly_squad_auto_iterate"@ {
        only_if(o.mode == 6, Some(ValueView::Bool(o.monthly_squad_auto_iterate)))
    } else if key == "monthly_squad_check_comms"@ {
        only_if(o.mode == 6, Some(ValueView::Bool(o.monthly_squad_check_comms)))
    } else if key == "deep_exploration_auto_iterate"@ {
        only_if(o.mode == 7, Some(ValueView::Bool(o.deep_exploration_auto_iterate)))
    } else if key == "refresh_trader_with_dice"@ {
        only_if(o.theme == Theme::Mizuki, Some(ValueView::Bool(o.refresh_trader_with_dice)))
    } else if key == "use_foldartal"@ {
        only_if(sami, Some(ValueView::Bool(o.use_foldartal)))
    } else if key == "first_floor_foldartal"@ {
        only_if(
            sami && o.mode == 4 && o.sami_first_floor_foldartal
                && o.sami_first_floor_foldartals.len() > 0,
            Some(ValueView::List(o.sami_first_floor_foldartals)),
        )
    } else if key == "start_foldartal_list"@ {
        only_if(sami, start_foldartals(o))
    } else if key == "check_collapsal_paradigms"@ {
        only_if(sami && o.mode == 5, Some(ValueView::Bool(true)))
    } else if key == "double_check_collapsal_paradigms"@ {
        only_if(sami && o.mode == 5, Some(ValueView::Bool(true)))
    } else if key == "expected_collapsal_paradigms"@ {
        only_if(sami && o.mode == 5, Some(ValueView::List(o.expected_collapsal_paradigms)))
    } else if key == "start_with_seed"@ {
        only_if(o.theme == Theme::Sarkaz && o.mode == 1 && o.start_with_seed, text_value(o.seed))
    } else if key == "find_playTime_target"@ {
        only_if(o.theme == Theme::JieGarden && o.mode == 20001, int_value(o.find_playtime_target))
    } else {
        None
    }
}

/// The parameters are rejected exactly as the table says.
pub proof fn lemma_rejection(o: RawOptions)
    ensures
        match rejection(o) {
            Some(error) => configuration(o) == Err::<Entries, ParamError>(error),
            None => configuration(o) is Ok,
        },
{
}

/// Among the fields that are written whatever the theme, each key is found
/// as the table says.
proof fn lemma_base_table(o: RawOptions, key: Seq<char>)
    requires
        base_key(key),
    ensures
        lookup(base_fields(o), key) == field(o, key),
{
    broadcast use lemma_with_entry_lookup;

    lemma_key_shapes();
    let m0 = Seq::empty();
    let m1 = general_fields(m0, o);
    let m2 = difficulty_field(m1, o);
    let m3 = investment_fields(m2, o);
    let m4 = support_fields(m3, o);
    let m5 = elite_fields(m4, o);
    let m6 = collectible_fields(m5, o);
    let m7 = monthly_squad_fields(m6, o);
    lemma_lookup_empty(key);
    if general_key(key) {
        lemma_difficulty_frame(m1, o, key);
    } else {
        lemma_general_frame(m0, o, key);
    }
    if !investment_key(key) {
        lemma_investment_frame(m2, o, key);
    }
    if !support_key(key) {
        lemma_support_frame(m3, o, key);
    }
    if !elite_key(key) {
        lemma_elite_frame(m4, o, key);
    }
    if !collectible_key(key) {
        lemma_collectible_frame(m5, o, key);
    }
    if !monthly_squad_key(key) {
        lemma_monthly_squad_frame(m6, o, key);
    }
    if key != "deep_exploration_auto_iterate"@ {
        lemma_deep_exploration_frame(m7, o, key);
    }
}

/// The configuration of parameters that are accepted holds under each key
/// what the table says, and nothing under any other key.
pub proof fn lemma_field(o: RawOptions, key: Seq<char>)
    ensures
        configuration(o) matches Ok(m) ==> lookup(m, key) == field(o, key),
{
    lemma_key_shapes();
    if base_key(key) {
        lemma_base_table(o, key);
        lemma_theme_frame(base_fields(o), o, key);
    } else {
        lemma_base_frame(o, key);
        if theme_key(key) {
            broadcast use lemma_with_entry_lookup;

        } else {
            lemma_theme_frame(base_fields(o), o, key);
        }
    }
}

} // verus!
