//! What holds of every resolution, stated over the configuration and the
//! warnings that `resolve` gives and proved from the table of its fields.

use crate::entries::{
    distinct_keys, has_key, lemma_with_entry_distinct, lookup, Entries, ValueView,
};
use crate::error::{ParamError, WarningView};
use crate::keys::{investment_key, lemma_key_shapes};
use crate::params::RawOptions;
use crate::resolve::{
    Resolution,
    base_fields, collectible_fields, difficulty_field, elite_fields, general_fields,
    investment_fields, monthly_squad_fields, configuration, resolve, support_fields,
};
use crate::table::{lemma_field, lemma_rejection};
use crate::theme::Theme;
use crate::warnings::{lemma_warning_conditions, warning_views, warnings_of};
use vstd::prelude::*;

verus! {

/// Mode 5 is rejected with every theme but Sami, and mode 20001 with every
/// theme but JieGarden; no warning is given then.
pub proof fn lemma_restricted_mode_is_rejected(o: RawOptions)
    requires
        (o.mode == 5 && o.theme != Theme::Sami) || (o.mode == 20001 && o.theme
            != Theme::JieGarden),
    ensures
        configuration(o) == Err::<Entries, ParamError>(
            if o.mode == 5 {
                ParamError::ModeRequiresSami
            } else {
                ParamError::ModeRequiresJieGarden
            },
        ),
        warnings_of(o).len() == 0,
{
}

/// A mode that is neither one of 0 to 7 nor 20001 is rejected, whatever the
/// theme; no warning is given then.
pub proof fn lemma_unknown_mode_is_rejected(o: RawOptions)
    requires
        !(0 <= o.mode <= 7),
        o.mode != 20001,
    ensures
        configuration(o) == Err::<Entries, ParamError>(ParamError::ModeOutOfRange),
        warnings_of(o).len() == 0,
{
}

/// With Phantom theme the configuration holds no difficulty, whether one
/// was given or not; one that was given is answered by a warning.
pub proof fn lemma_phantom_has_no_difficulty(o: RawOptions)
    requires
        o.theme == Theme::Phantom,
    ensures
        configuration(o) matches Ok(m) ==> !has_key(m, "difficulty"@),
        configuration(o) is Ok && o.difficulty is Some ==> warnings_of(o).contains(
            WarningView::DifficultyIgnored,
        ),
{
    lemma_key_shapes();
    lemma_field(o, "difficulty"@);
    if configuration(o) is Ok {
        lemma_warning_conditions(o);
    }
}

/// With the investment disabled the configuration holds one key of the
/// investment, under which it says that the investment is disabled; the
/// count and the other choices on the investment are not written, whether
/// they were given or not.
pub proof fn lemma_disabled_investment(o: RawOptions)
    requires
        o.disable_investment,
    ensures
        configuration(o) matches Ok(m) ==> {
            &&& lookup(m, "investment_enabled"@) == Some(ValueView::Bool(false))
            &&& forall|key: Seq<char>|
                investment_key(key) && #[trigger] has_key(m, key) ==> key == "investment_enabled"@
        },
{
    lemma_key_shapes();
    if let Ok(m) = configuration(o) {
        lemma_field(o, "investment_enabled"@);
        assert forall|key: Seq<char>| investment_key(key) && #[trigger] has_key(m, key) implies key
            == "investment_enabled"@ by {
            lemma_field(o, key);
        }
    }
}

/// With Sami theme, the starting foldartals of the second new squad, where
/// they were asked for and at least one was given, are what the
/// configuration holds as starting foldartals, whatever the general starting
/// foldartals are.
pub proof fn lemma_squad_foldartals_come_first(o: RawOptions)
    requires
        o.theme == Theme::Sami,
        o.sami_new_squad2_starting_foldartal,
        o.sami_new_squad2_starting_foldartals.len() > 0,
    ensures
        configuration(o) matches Ok(m) ==> lookup(m, "start_foldartal_list"@) == Some(
            ValueView::List(o.sami_new_squad2_starting_foldartals),
        ),
{
    lemma_key_shapes();
    lemma_field(o, "start_foldartal_list"@);
}

/// With JieGarden theme and mode 20001, a target of 1, 2 or 3 is written
/// into the configuration as it is; any other target is rejected, and so is
/// a missing one.
pub proof fn lemma_find_playtime_target(o: RawOptions)
    requires
        o.theme == Theme::JieGarden,
        o.mode == 20001,
    ensures
        match o.find_playtime_target {
            Some(target) => if 1 <= target <= 3 {
                configuration(o) matches Ok(m) && lookup(m, "find_playTime_target"@) == Some(
                    ValueView::Int(target),
                )
            } else {
                configuration(o) == Err::<Entries, ParamError>(ParamError::TargetOutOfRange)
            },
            None => configuration(o) == Err::<Entries, ParamError>(ParamError::MissingTarget),
        },
{
    lemma_key_shapes();
    lemma_rejection(o);
    lemma_field(o, "find_playTime_target"@);
}

/// With Sarkaz theme and mode 1, a start with a seed needs a seed: without
/// one the parameters are rejected, with one the seed is written into the
/// configuration.
pub proof fn lemma_seed_is_required(o: RawOptions)
    requires
        o.theme == Theme::Sarkaz,
        o.mode == 1,
        o.start_with_seed,
    ensures
        match o.seed {
            Some(seed) => configuration(o) matches Ok(m) && lookup(m, "start_with_seed"@) == Some(
                ValueView::Text(seed),
            ),
            None => configuration(o) == Err::<Entries, ParamError>(ParamError::MissingSeed),
        },
{
    lemma_key_shapes();
    lemma_rejection(o);
    lemma_field(o, "start_with_seed"@);
}

/// Without a start with a seed the configuration holds no seed, whether one
/// was given or not; one that was given is answered by a warning. With
/// Sarkaz theme and mode 1 the parameters are still accepted.
pub proof fn lemma_seed_without_start_is_ignored(o: RawOptions)
    requires
        !o.start_with_seed,
    ensures
        configuration(o) matches Ok(m) ==> !has_key(m, "start_with_seed"@),
        configuration(o) is Ok && o.seed is Some ==> warnings_of(o).contains(WarningView::SeedIgnored),
        o.theme == Theme::Sarkaz && o.mode == 1 ==> configuration(o) is Ok,
{
    lemma_key_shapes();
    lemma_rejection(o);
    lemma_field(o, "start_with_seed"@);
    if configuration(o) is Ok {
        lemma_warning_conditions(o);
    }
}

/// No key occurs twice in a configuration.
pub proof fn lemma_resolved_keys_are_distinct(o: RawOptions)
    ensures
        configuration(o) matches Ok(m) ==> distinct_keys(m),
{
    broadcast use lemma_with_entry_distinct;

    assert(distinct_keys(Seq::empty())) by {
        reveal(distinct_keys);
    }
    let m1 = general_fields(Seq::empty(), o);
    let m2 = difficulty_field(m1, o);
    let m3 = investment_fields(m2, o);
    let m4 = support_fields(m3, o);
    let m5 = elite_fields(m4, o);
    let m6 = collectible_fields(m5, o);
    let m7 = monthly_squad_fields(m6, o);
    assert(distinct_keys(m1));
    assert(distinct_keys(m2));
    assert(distinct_keys(m3));
    assert(distinct_keys(m4));
    assert(distinct_keys(m5));
    assert(distinct_keys(m6));
    assert(distinct_keys(m7));
    assert(distinct_keys(base_fields(o)));
}

/// Resolving is a function of the parameters: two resolutions of the same
/// parameters agree in every warning, in every entry and its place, and in
/// the error.
pub proof fn lemma_resolution_is_determined(o: RawOptions, first: Resolution, second: Resolution)
    requires
        first@ == resolve(o),
        second@ == resolve(o),
    ensures
        first@ == second@,
        warning_views(first.warnings@) == warning_views(second.warnings@),
        first.outcome is Ok <==> second.outcome is Ok,
        first.outcome is Ok ==> first.outcome->Ok_0@ == second.outcome->Ok_0@,
        first.outcome is Err ==> first.outcome->Err_0 == second.outcome->Err_0,
{
}

} // verus!
