//! From the parameters of a run to its configuration.
//!
//! The mode is checked against the theme first. Then the fields that every
//! run has are written, each input that does not apply being left out with a
//! warning, and last the fields of the theme, some of which are required.

use crate::awards::{award_names, parse_awards, selected_awards};
use crate::config::{ConfigurationMap, Value};
use crate::entries::{distinct_keys, with_entry, Entries, ValueView};
use crate::error::{ParamError, Warning, WarningView};
use crate::mode::{check_mode, validate_mode};
use crate::params::{optional_int, optional_text, RawOptions, RoguelikeParams};
use crate::text::{copy_texts, texts};
use crate::theme::Theme;
use crate::warnings::{
    award_warnings, unknown_award_warnings, warn_of_awards, warning_views, warnings_of,
};
use vstd::prelude::*;

verus! {

/// The entries after a text has been stored under `key`, if there is one.
pub open spec fn with_optional_text(
    entries: Entries,
    key: Seq<char>,
    value: Option<Seq<char>>,
) -> Entries {
    match value {
        Some(text) => with_entry(entries, key, ValueView::Text(text)),
        None => entries,
    }
}

/// The entries after a number has been stored under `key`, if there is one.
pub open spec fn with_optional_int(
    entries: Entries,
    key: Seq<char>,
    value: Option<int>,
) -> Entries {
    match value {
        Some(number) => with_entry(entries, key, ValueView::Int(number)),
        None => entries,
    }
}

/// The fields of every run: theme and mode, the squad, roles, core operator
/// and start count that were given, and the three conditions to stop.
pub open spec fn general_fields(m: Entries, o: RawOptions) -> Entries {
    let m = with_entry(m, "theme"@, ValueView::Text(o.theme.name()));
    let m = with_entry(m, "mode"@, ValueView::Int(o.mode));
    let m = with_optional_text(m, "squad"@, o.squad);
    let m = with_optional_text(m, "roles"@, o.roles);
    let m = with_optional_text(m, "core_char"@, o.core_char);
    let m = with_optional_int(m, "start_count"@, o.start_count);
    let m = with_entry(m, "stop_at_final_boss"@, ValueView::Bool(o.stop_at_final_boss));
    let m = with_entry(m, "stop_when_deposit_full"@, ValueView::Bool(o.stop_when_deposit_full));
    with_entry(m, "stop_at_max_level"@, ValueView::Bool(o.stop_when_level_max))
}

/// The difficulty, where one was given and the theme is not Phantom.
pub open spec fn difficulty_field(m: Entries, o: RawOptions) -> Entries {
    if o.theme == Theme::Phantom {
        m
    } else {
        with_optional_int(m, "difficulty"@, o.difficulty)
    }
}

/// The investment: switched off, and nothing more; or switched on, with the
/// count that was given, the choice of more score, and whether to stop when
/// the investment is full.
pub open spec fn investment_fields(m: Entries, o: RawOptions) -> Entries {
    if o.disable_investment {
        with_entry(m, "investment_enabled"@, ValueView::Bool(false))
    } else {
        let m = with_entry(m, "investment_enabled"@, ValueView::Bool(true));
        let m = with_optional_int(m, "investments_count"@, o.investments_count);
        let m = with_entry(
            m,
            "investment_with_more_score"@,
            ValueView::Bool(o.investment_with_more_score),
        );
        with_entry(
            m,
            "stop_when_investment_full"@,
            ValueView::Bool(!o.no_stop_when_investment_full),
        )
    }
}

/// The two choices on support operators.
pub open spec fn support_fields(m: Entries, o: RawOptions) -> Entries {
    let m = with_entry(m, "use_support"@, ValueView::Bool(o.use_support));
    with_entry(m, "use_nonfriend_support"@, ValueView::Bool(o.use_nonfriend_support))
}

/// The start at elite two, with the choice to do nothing else, where it was
/// asked for.
pub open spec fn elite_fields(m: Entries, o: RawOptions) -> Entries {
    if o.start_with_elite_two {
        let m = with_entry(m, "start_with_elite_two"@, ValueView::Bool(true));
        with_entry(m, "only_start_with_elite_two"@, ValueView::Bool(o.only_start_with_elite_two))
    } else {
        m
    }
}

/// The start awards of the collectible mode, where a list was given and
/// names at least one known award.
pub open spec fn start_awards_field(m: Entries, list: Option<Seq<char>>) -> Entries {
    match list {
        Some(list) => {
            let awards = selected_awards(award_names(list));
            if awards.len() > 0 {
                with_entry(m, "collectible_mode_start_list"@, ValueView::Object(awards))
            } else {
                m
            }
        },
        None => m,
    }
}

/// The fields of mode 4: the squad that was given, the choice to shop, and
/// the start awards.
pub open spec fn collectible_fields(m: Entries, o: RawOptions) -> Entries {
    if o.mode == 4 {
        let m = with_optional_text(m, "collectible_mode_squad"@, o.collectible_squad);
        let m = with_entry(
            m,
            "collectible_mode_shopping"@,
            ValueView::Bool(o.collectible_shopping),
        );
        start_awards_field(m, o.collectible_start_awards)
    } else {
        m
    }
}

/// The fields of mode 6.
pub open spec fn monthly_squad_fields(m: Entries, o: RawOptions) -> Entries {
    if o.mode == 6 {
        let m = with_entry(
            m,
            "monthly_squad_auto_iterate"@,
            ValueView::Bool(o.monthly_squad_auto_iterate),
        );
        with_entry(m, "monthly_squad_check_comms"@, ValueView::Bool(o.monthly_squad_check_comms))
    } else {
        m
    }
}

/// The field of mode 7.
pub open spec fn deep_exploration_fields(m: Entries, o: RawOptions) -> Entries {
    if o.mode == 7 {
        with_entry(
            m,
            "deep_exploration_auto_iterate"@,
            ValueView::Bool(o.deep_exploration_auto_iterate),
        )
    } else {
        m
    }
}

/// The fields that do not depend on the theme but for the difficulty, in the
/// order in which they are written.
pub open spec fn base_fields(o: RawOptions) -> Entries {
    let m = general_fields(Seq::empty(), o);
    let m = difficulty_field(m, o);
    let m = investment_fields(m, o);
    let m = support_fields(m, o);
    let m = elite_fields(m, o);
    let m = collectible_fields(m, o);
    let m = monthly_squad_fields(m, o);
    deep_exploration_fields(m, o)
}

/// The starting foldartals of Sami theme: those of the second new squad
/// where they were asked for and given, else the general ones where any were
/// given.
pub open spec fn start_foldartal_field(m: Entries, o: RawOptions) -> Entries {
    if o.sami_new_squad2_starting_foldartal && o.sami_new_squad2_starting_foldartals.len() > 0 {
        with_entry(
            m,
            "start_foldartal_list"@,
            ValueView::List(o.sami_new_squad2_starting_foldartals),
        )
    } else if o.start_foldartals.len() > 0 {
        with_entry(m, "start_foldartal_list"@, ValueView::List(o.start_foldartals))
    } else {
        m
    }
}

/// The fields of Sami theme. Mode 5 needs at least one expected collapsal
/// paradigm.
pub open spec fn sami_fields(m: Entries, o: RawOptions) -> Result<Entries, ParamError> {
    let m = with_entry(m, "use_foldartal"@, ValueView::Bool(o.use_foldartal));
    let m = if o.mode == 4 && o.sami_first_floor_foldartal && o.sami_first_floor_foldartals.len()
        > 0 {
        with_entry(m, "first_floor_foldartal"@, ValueView::List(o.sami_first_floor_foldartals))
    } else {
        m
    };
    let m = start_foldartal_field(m, o);
    if o.mode != 5 {
        Ok(m)
    } else if o.expected_collapsal_paradigms.len() == 0 {
        Err(ParamError::MissingParadigms)
    } else {
        let m = with_entry(m, "check_collapsal_paradigms"@, ValueView::Bool(true));
        let m = with_entry(m, "double_check_collapsal_paradigms"@, ValueView::Bool(true));
        Ok(
            with_entry(
                m,
                "expected_collapsal_paradigms"@,
                ValueView::List(o.expected_collapsal_paradigms),
            ),
        )
    }
}

/// The field of Sarkaz theme with mode 1: the seed, where a start with a
/// seed was asked for, which then needs a seed.
pub open spec fn seed_field(m: Entries, o: RawOptions) -> Result<Entries, ParamError> {
    if !o.start_with_seed {
        Ok(m)
    } else {
        match o.seed {
            Some(seed) => Ok(with_entry(m, "start_with_seed"@, ValueView::Text(seed))),
            None => Err(ParamError::MissingSeed),
        }
    }
}

/// The field of JieGarden theme with mode 20001: the target, which must be
/// given and be one of 1, 2 and 3.
pub open spec fn target_field(m: Entries, o: RawOptions) -> Result<Entries, ParamError> {
    match o.find_playtime_target {
        Some(target) => if 1 <= target <= 3 {
            Ok(with_entry(m, "find_playTime_target"@, ValueView::Int(target)))
        } else {
            Err(ParamError::TargetOutOfRange)
        },
        None => Err(ParamError::MissingTarget),
    }
}

/// The fields of the theme, added to those in `m`.
pub open spec fn theme_fields(m: Entries, o: RawOptions) -> Result<Entries, ParamError> {
    match o.theme {
        Theme::Phantom => Ok(m),
        Theme::Mizuki => Ok(
            with_entry(m, "refresh_trader_with_dice"@, ValueView::Bool(o.refresh_trader_with_dice)),
        ),
        Theme::Sami => sami_fields(m, o),
        Theme::Sarkaz => if o.mode == 1 {
            seed_field(m, o)
        } else {
            Ok(m)
        },
        Theme::JieGarden => if o.mode == 20001 {
            target_field(m, o)
        } else {
            Ok(m)
        },
    }
}

/// The configuration of a run with the given parameters, or the reason why
/// there is none.
pub open spec fn configuration(o: RawOptions) -> Result<Entries, ParamError> {
    match check_mode(o.theme, o.mode) {
        Err(error) => Err(error),
        Ok(_) => theme_fields(base_fields(o), o),
    }
}

/// What resolving gives, as plain mathematics.
pub struct ResolutionView {
    pub warnings: Seq<WarningView>,
    pub outcome: Result<Entries, ParamError>,
}

/// What resolving the given parameters gives.
pub open spec fn resolve(o: RawOptions) -> ResolutionView {
    ResolutionView { warnings: warnings_of(o), outcome: configuration(o) }
}

/// What resolving gives: the warnings on input that is ignored, in the order
/// in which they are given, and the configuration of the run or the reason
/// why the parameters are rejected.
#[derive(Debug, PartialEq, Eq)]
pub struct Resolution {
    pub warnings: Vec<Warning>,
    pub outcome: Result<ConfigurationMap, ParamError>,
}

impl View for Resolution {
    type V = ResolutionView;

    open spec fn view(&self) -> ResolutionView {
        ResolutionView {
            warnings: warning_views(self.warnings@),
            outcome: match self.outcome {
                Ok(map) => Ok(map@),
                Err(error) => Err(error),
            },
        }
    }
}

/// Stores a text under `key`, if there is one.
fn insert_text(map: &mut ConfigurationMap, key: &str, value: &Option<String>)
    ensures
        final(map)@ == with_optional_text(old(map)@, key@, optional_text(*value)),
{
    if let Some(text) = value {
        map.insert(key, Value::Text(text.clone()));
    }
}

/// Stores a number under `key`, if there is one.
fn insert_int(map: &mut ConfigurationMap, key: &str, value: Option<i32>)
    ensures
        final(map)@ == with_optional_int(old(map)@, key@, optional_int(value)),
{
    if let Some(number) = value {
        map.insert(key, Value::Int(number));
    }
}

impl RoguelikeParams {
    /// Writes the fields of every run.
    fn write_general(&self, map: &mut ConfigurationMap)
        ensures
            final(map)@ == general_fields(old(map)@, self@),
    {
        map.insert("theme", Value::Text(self.theme.to_str().to_owned()));
        map.insert("mode", Value::Int(self.mode));
        insert_text(map, "squad", &self.squad);
        insert_text(map, "roles", &self.roles);
        insert_text(map, "core_char", &self.core_char);
        insert_int(map, "start_count", self.start_count);
        map.insert("stop_at_final_boss", Value::Bool(self.stop_at_final_boss));
        map.insert("stop_when_deposit_full", Value::Bool(self.stop_when_deposit_full));
        map.insert("stop_at_max_level", Value::Bool(self.stop_when_level_max));
    }

    /// Writes the difficulty, unless the theme is Phantom.
    fn write_difficulty(&self, map: &mut ConfigurationMap)
        ensures
            final(map)@ == difficulty_field(old(map)@, self@),
    {
        if self.theme != Theme::Phantom {
            insert_int(map, "difficulty", self.difficulty);
        }
    }

    /// Writes the investment.
    fn write_investment(&self, map: &mut ConfigurationMap)
        ensures
            final(map)@ == investment_fields(old(map)@, self@),
    {
        if self.disable_investment {
            map.insert("investment_enabled", Value::Bool(false));
        } else {
            map.insert("investment_enabled", Value::Bool(true));
            insert_int(map, "investments_count", self.investments_count);
            map.insert(
                "investment_with_more_score",
                Value::Bool(self.investment_with_more_score),
            );
            map.insert(
                "stop_when_investment_full",
                Value::Bool(!self.no_stop_when_investment_full),
            );
        }
    }

    /// Writes the two choices on support operators.
    fn write_support(&self, map: &mut ConfigurationMap)
        ensures
            final(map)@ == support_fields(old(map)@, self@),
    {
        map.insert("use_support", Value::Bool(self.use_support));
        map.insert("use_nonfriend_support", Value::Bool(self.use_nonfriend_support));
    }

    /// Writes the start at elite two, where it was asked for.
    fn write_elite(&self, map: &mut ConfigurationMap)
        ensures
            final(map)@ == elite_fields(old(map)@, self@),
    {
        if self.start_with_elite_two {
            map.insert("start_with_elite_two", Value::Bool(true));
            map.insert("only_start_with_elite_two", Value::Bool(self.only_start_with_elite_two));
        }
    }

    /// Writes the fields of mode 4, and gives back the names of the start
    /// awards that are neither empty nor known.
    fn write_collectible(&self, map: &mut ConfigurationMap) -> (unknown: Vec<String>)
        ensures
            final(map)@ == collectible_fields(old(map)@, self@),
            unknown_award_warnings(texts(unknown@)) == award_warnings(self@),
    {
        if self.mode == 4 {
            insert_text(map, "collectible_mode_squad", &self.collectible_squad);
            map.insert("collectible_mode_shopping", Value::Bool(self.collectible_shopping));
            if let Some(awards) = &self.collectible_start_awards {
                let (start_rewards, unknown) = parse_awards(awards.as_str());
                if start_rewards.len() > 0 {
                    map.insert("collectible_mode_start_list", Value::Object(start_rewards));
                }
                return unknown;
            }
        }
        let unknown: Vec<String> = Vec::new();
        assert(unknown_award_warnings(texts(unknown@)) =~= Seq::empty());
        unknown
    }

    /// Writes the fields of mode 6.
    fn write_monthly_squad(&self, map: &mut ConfigurationMap)
        ensures
            final(map)@ == monthly_squad_fields(old(map)@, self@),
    {
        if self.mode == 6 {
            map.insert(
                "monthly_squad_auto_iterate",
                Value::Bool(self.monthly_squad_auto_iterate),
            );
            map.insert("monthly_squad_check_comms", Value::Bool(self.monthly_squad_check_comms));
        }
    }

    /// Writes the field of mode 7.
    fn write_deep_exploration(&self, map: &mut ConfigurationMap)
        ensures
            final(map)@ == deep_exploration_fields(old(map)@, self@),
    {
        if self.mode == 7 {
            map.insert(
                "deep_exploration_auto_iterate",
                Value::Bool(self.deep_exploration_auto_iterate),
            );
        }
    }

    /// Writes the fields of Sami theme, or says which input is missing.
    fn write_sami(&self, map: &mut ConfigurationMap) -> (written: Result<(), ParamError>)
        ensures
            match written {
                Ok(_) => sami_fields(old(map)@, self@) == Ok::<Entries, ParamError>(final(map)@),
                Err(error) => sami_fields(old(map)@, self@) == Err::<Entries, ParamError>(error),
            },
    {
        map.insert("use_foldartal", Value::Bool(self.use_foldartal));

        // First floor foldartal collection in collectible mode
        if self.mode == 4 && self.sami_first_floor_foldartal
            && self.sami_first_floor_foldartals.len() > 0 {
            map.insert(
                "first_floor_foldartal",
                Value::List(copy_texts(&self.sami_first_floor_foldartals)),
            );
        }

        // The foldartals of the second new squad come before the general ones
        if self.sami_new_squad2_starting_foldartal
            && self.sami_new_squad2_starting_foldartals.len() > 0 {
            map.insert(
                "start_foldartal_list",
                Value::List(copy_texts(&self.sami_new_squad2_starting_foldartals)),
            );
        } else if self.start_foldartals.len() > 0 {
            map.insert("start_foldartal_list", Value::List(copy_texts(&self.start_foldartals)));
        }

        if self.mode == 5 {
            if self.expected_collapsal_paradigms.len() == 0 {
                return Err(ParamError::MissingParadigms);
            }
            map.insert("check_collapsal_paradigms", Value::Bool(true));
            map.insert("double_check_collapsal_paradigms", Value::Bool(true));
            map.insert(
                "expected_collapsal_paradigms",
                Value::List(copy_texts(&self.expected_collapsal_paradigms)),
            );
        }
        Ok(())
    }

    /// Writes the seed of Sarkaz theme with mode 1, or says that it is
    /// missing.
    fn write_seed(&self, map: &mut ConfigurationMap) -> (written: Result<(), ParamError>)
        ensures
            match written {
                Ok(_) => seed_field(old(map)@, self@) == Ok::<Entries, ParamError>(final(map)@),
                Err(error) => seed_field(old(map)@, self@) == Err::<Entries, ParamError>(error),
            },
    {
        if self.start_with_seed {
            match &self.seed {
                Some(seed) => {
                    map.insert("start_with_seed", Value::Text(seed.clone()));
                },
                None => {
                    return Err(ParamError::MissingSeed);
                },
            }
        }
        Ok(())
    }

    /// Writes the target of JieGarden theme with mode 20001, or says what is
    /// wrong with it.
    fn write_target(&self, map: &mut ConfigurationMap) -> (written: Result<(), ParamError>)
        ensures
            match written {
                Ok(_) => target_field(old(map)@, self@) == Ok::<Entries, ParamError>(final(map)@),
                Err(error) => target_field(old(map)@, self@) == Err::<Entries, ParamError>(error),
            },
    {
        match self.find_playtime_target {
            Some(target) => {
                if !(1 <= target && target <= 3) {
                    return Err(ParamError::TargetOutOfRange);
                }
                map.insert("find_playTime_target", Value::Int(target));
                Ok(())
            },
            None => Err(ParamError::MissingTarget),
        }
    }

    /// Writes the fields of the theme, or says why the parameters are
    /// rejected.
    fn write_theme(&self, map: &mut ConfigurationMap) -> (written: Result<(), ParamError>)
        ensures
            match written {
                Ok(_) => theme_fields(old(map)@, self@) == Ok::<Entries, ParamError>(final(map)@),
                Err(error) => theme_fields(old(map)@, self@) == Err::<Entries, ParamError>(error),
            },
    {
        match self.theme {
            Theme::Mizuki => {
                map.insert("refresh_trader_with_dice", Value::Bool(self.refresh_trader_with_dice));
                Ok(())
            },
            Theme::Sami => self.write_sami(map),
            Theme::Sarkaz => if self.mode == 1 {
                self.write_seed(map)
            } else {
                Ok(())
            },
            Theme::JieGarden => if self.mode == 20001 {
                self.write_target(map)
            } else {
                Ok(())
            },
            Theme::Phantom => Ok(()),
        }
    }

    /// Resolves the parameters: checks the mode against the theme, gathers
    /// the warnings on input that is ignored, and builds the configuration of
    /// the run or says why the parameters are rejected.
    pub fn into_parameters_no_context(self) -> (resolution: Resolution)
        ensures
            resolution@ == resolve(self@),
            resolution.outcome matches Ok(map) ==> distinct_keys(map@),
    {
        if let Err(error) = validate_mode(self.theme, self.mode) {
            let warnings: Vec<Warning> = Vec::new();
            assert(warning_views(warnings@) =~= Seq::empty());
            return Resolution { warnings, outcome: Err(error) };
        }
        let mut warnings = self.warn_of_flags();
        let mut value = ConfigurationMap::new();
        self.write_general(&mut value);
        self.write_difficulty(&mut value);
        self.write_investment(&mut value);
        self.write_support(&mut value);
        self.write_elite(&mut value);
        let unknown = self.write_collectible(&mut value);
        warn_of_awards(&mut warnings, &unknown);
        self.write_monthly_squad(&mut value);
        self.write_deep_exploration(&mut value);
        let outcome = match self.write_theme(&mut value) {
            Ok(_) => {
                proof {
                    use_type_invariant(&value);
                }
                Ok(value)
            },
            Err(error) => Err(error),
        };
        Resolution { warnings, outcome }
    }
}

} // verus!
