//! The parameters of a roguelike run as they are given, before any check.

use crate::text::texts;
use crate::theme::Theme;
use vstd::prelude::*;

verus! {

/// The parameters of a run as plain mathematics.
pub struct RawOptions {
    pub theme: Theme,
    pub mode: int,
    pub squad: Option<Seq<char>>,
    pub core_char: Option<Seq<char>>,
    pub roles: Option<Seq<char>>,
    pub start_count: Option<int>,
    pub difficulty: Option<int>,
    pub disable_investment: bool,
    pub investment_with_more_score: bool,
    pub investments_count: Option<int>,
    pub no_stop_when_investment_full: bool,
    pub use_support: bool,
    pub use_nonfriend_support: bool,
    pub start_with_elite_two: bool,
    pub only_start_with_elite_two: bool,
    pub stop_at_final_boss: bool,
    pub stop_when_deposit_full: bool,
    pub stop_when_level_max: bool,
    pub refresh_trader_with_dice: bool,
    pub use_foldartal: bool,
    pub start_foldartals: Seq<Seq<char>>,
    pub expected_collapsal_paradigms: Seq<Seq<char>>,
    pub sami_first_floor_foldartal: bool,
    pub sami_first_floor_foldartals: Seq<Seq<char>>,
    pub sami_new_squad2_starting_foldartal: bool,
    pub sami_new_squad2_starting_foldartals: Seq<Seq<char>>,
    pub start_with_seed: bool,
    pub seed: Option<Seq<char>>,
    pub find_playtime_target: Option<int>,
    pub collectible_squad: Option<Seq<char>>,
    pub collectible_shopping: bool,
    pub collectible_start_awards: Option<Seq<char>>,
    pub monthly_squad_auto_iterate: bool,
    pub monthly_squad_check_comms: bool,
    pub deep_exploration_auto_iterate: bool,
}

/// The parameters of a roguelike run.
#[derive(Debug, PartialEq, Eq)]
pub struct RoguelikeParams {
    /// Theme of the roguelike.
    pub theme: Theme,
    /// Mode of the roguelike: 0 to 7, or 20001.
    pub mode: i32,
    /// Starting squad.
    pub squad: Option<String>,
    /// Core operator.
    pub core_char: Option<String>,
    /// Starting recruitment combination.
    pub roles: Option<String>,
    /// Stop after the given count of runs; never, if not given.
    pub start_count: Option<i32>,
    /// Difficulty; not valid for Phantom theme.
    pub difficulty: Option<i32>,
    /// Disable investment.
    pub disable_investment: bool,
    /// Invest with more score.
    pub investment_with_more_score: bool,
    /// Stop after the given count of investments.
    pub investments_count: Option<i32>,
    /// Do not stop when the investment is full.
    pub no_stop_when_investment_full: bool,
    /// Use a support operator.
    pub use_support: bool,
    /// Use a support operator that is no friend.
    pub use_nonfriend_support: bool,
    /// Start with an operator at elite two.
    pub start_with_elite_two: bool,
    /// Only start with an operator at elite two, and do not fight.
    pub only_start_with_elite_two: bool,
    /// Stop before the final boss.
    pub stop_at_final_boss: bool,
    /// Stop when the deposit is full.
    pub stop_when_deposit_full: bool,
    /// Stop when the level reaches its maximum.
    pub stop_when_level_max: bool,
    /// Refresh the trader with dice (Mizuki theme).
    pub refresh_trader_with_dice: bool,
    /// Use foldartals (Sami theme).
    pub use_foldartal: bool,
    /// Starting foldartals.
    pub start_foldartals: Vec<String>,
    /// Expected collapsal paradigms; mode 5 needs at least one.
    pub expected_collapsal_paradigms: Vec<String>,
    /// Collect foldartals on the first floor in mode 4 (Sami theme).
    pub sami_first_floor_foldartal: bool,
    /// The foldartals to collect on the first floor.
    pub sami_first_floor_foldartals: Vec<String>,
    /// Start with foldartals chosen for the second new squad (Sami theme).
    pub sami_new_squad2_starting_foldartal: bool,
    /// The starting foldartals for the second new squad; they come before
    /// the general starting foldartals.
    pub sami_new_squad2_starting_foldartals: Vec<String>,
    /// Start with a seed (Sarkaz theme with mode 1).
    pub start_with_seed: bool,
    /// The seed to start with.
    pub seed: Option<String>,
    /// The target of mode 20001: 1, 2 or 3.
    pub find_playtime_target: Option<i32>,
    /// Squad for the collectible mode.
    pub collectible_squad: Option<String>,
    /// Shop in the collectible mode.
    pub collectible_shopping: bool,
    /// Start awards of the collectible mode, as a list divided by commas.
    pub collectible_start_awards: Option<String>,
    /// Go through the monthly squads one after the other (mode 6).
    pub monthly_squad_auto_iterate: bool,
    /// Check and collect the communication items (mode 6).
    pub monthly_squad_check_comms: bool,
    /// Go through the deep exploration missions one after the other (mode 7).
    pub deep_exploration_auto_iterate: bool,
}

/// The text of a string that may be missing.
pub open spec fn optional_text(value: Option<String>) -> Option<Seq<char>> {
    match value {
        Some(text) => Some(text@),
        None => None,
    }
}

/// The number held by a machine integer that may be missing.
pub open spec fn optional_int(value: Option<i32>) -> Option<int> {
    match value {
        Some(number) => Some(number as int),
        None => None,
    }
}

impl View for RoguelikeParams {
    type V = RawOptions;

    open spec fn view(&self) -> RawOptions {
        RawOptions {
            theme: self.theme,
            mode: self.mode as int,
            squad: optional_text(self.squad),
            core_char: optional_text(self.core_char),
            roles: optional_text(self.roles),
            start_count: optional_int(self.start_count),
            difficulty: optional_int(self.difficulty),
            disable_investment: self.disable_investment,
            investment_with_more_score: self.investment_with_more_score,
            investments_count: optional_int(self.investments_count),
            no_stop_when_investment_full: self.no_stop_when_investment_full,
            use_support: self.use_support,
            use_nonfriend_support: self.use_nonfriend_support,
            start_with_elite_two: self.start_with_elite_two,
            only_start_with_elite_two: self.only_start_with_elite_two,
            stop_at_final_boss: self.stop_at_final_boss,
            stop_when_deposit_full: self.stop_when_deposit_full,
            stop_when_level_max: self.stop_when_level_max,
            refresh_trader_with_dice: self.refresh_trader_with_dice,
            use_foldartal: self.use_foldartal,
            start_foldartals: texts(self.start_foldartals@),
            expected_collapsal_paradigms: texts(self.expected_collapsal_paradigms@),
            sami_first_floor_foldartal: self.sami_first_floor_foldartal,
            sami_first_floor_foldartals: texts(self.sami_first_floor_foldartals@),
            sami_new_squad2_starting_foldartal: self.sami_new_squad2_starting_foldartal,
            sami_new_squad2_starting_foldartals: texts(
                self.sami_new_squad2_starting_foldartals@,
            ),
            start_with_seed: self.start_with_seed,
            seed: optional_text(self.seed),
            find_playtime_target: optional_int(self.find_playtime_target),
            collectible_squad: optional_text(self.collectible_squad),
            collectible_shopping: self.collectible_shopping,
            collectible_start_awards: optional_text(self.collectible_start_awards),
            monthly_squad_auto_iterate: self.monthly_squad_auto_iterate,
            monthly_squad_check_comms: self.monthly_squad_check_comms,
            deep_exploration_auto_iterate: self.deep_exploration_auto_iterate,
        }
    }
}

impl RawOptions {
    /// The parameters of a run in `theme` for which nothing else was given:
    /// mode 0, the three switches of the monthly squad and deep exploration
    /// modes on, every other switch off, and no value or list entry.
    pub open spec fn defaults(theme: Theme) -> RawOptions {
        RawOptions {
            theme,
            mode: 0,
            squad: None,
            core_char: None,
            roles: None,
            start_count: None,
            difficulty: None,
            disable_investment: false,
            investment_with_more_score: false,
            investments_count: None,
            no_stop_when_investment_full: false,
            use_support: false,
            use_nonfriend_support: false,
            start_with_elite_two: false,
            only_start_with_elite_two: false,
            stop_at_final_boss: false,
            stop_when_deposit_full: false,
            stop_when_level_max: false,
            refresh_trader_with_dice: false,
            use_foldartal: false,
            start_foldartals: Seq::empty(),
            expected_collapsal_paradigms: Seq::empty(),
            sami_first_floor_foldartal: false,
            sami_first_floor_foldartals: Seq::empty(),
            sami_new_squad2_starting_foldartal: false,
            sami_new_squad2_starting_foldartals: Seq::empty(),
            start_with_seed: false,
            seed: None,
            find_playtime_target: None,
            collectible_squad: None,
            collectible_shopping: false,
            collectible_start_awards: None,
            monthly_squad_auto_iterate: true,
            monthly_squad_check_comms: true,
            deep_exploration_auto_iterate: true,
        }
    }
}

impl RoguelikeParams {
    /// The parameters of a run in `theme` for which nothing else is given.
    pub fn new(theme: Theme) -> (params: RoguelikeParams)
        ensures
            params@ == RawOptions::defaults(theme),
    {
        let params = RoguelikeParams {
            theme,
            mode: 0,
            squad: None,
            core_char: None,
            roles: None,
            start_count: None,
            difficulty: None,
            disable_investment: false,
            investment_with_more_score: false,
            investments_count: None,
            no_stop_when_investment_full: false,
            use_support: false,
            use_nonfriend_support: false,
            start_with_elite_two: false,
            only_start_with_elite_two: false,
            stop_at_final_boss: false,
            stop_when_deposit_full: false,
            stop_when_level_max: false,
            refresh_trader_with_dice: false,
            use_foldartal: false,
            start_foldartals: Vec::new(),
            expected_collapsal_paradigms: Vec::new(),
            sami_first_floor_foldartal: false,
            sami_first_floor_foldartals: Vec::new(),
            sami_new_squad2_starting_foldartal: false,
            sami_new_squad2_starting_foldartals: Vec::new(),
            start_with_seed: false,
            seed: None,
            find_playtime_target: None,
            collectible_squad: None,
            collectible_shopping: false,
            collectible_start_awards: None,
            monthly_squad_auto_iterate: true,
            monthly_squad_check_comms: true,
            deep_exploration_auto_iterate: true,
        };
        assert(texts(params.start_foldartals@) =~= Seq::empty());
        assert(texts(params.expected_collapsal_paradigms@) =~= Seq::empty());
        assert(texts(params.sami_first_floor_foldartals@) =~= Seq::empty());
        assert(texts(params.sami_new_squad2_starting_foldartals@) =~= Seq::empty());
        params
    }
}

} // verus!
