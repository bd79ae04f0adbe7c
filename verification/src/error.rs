//! What can be wrong with the parameters of a run: errors that end the
//! resolution, and warnings about input that is ignored.

use vstd::prelude::*;
use vstd::string::StringExecFns;

verus! {

/// Why a set of parameters is rejected.
#[derive(Clone, Copy, Debug, PartialEq, Eq, Structural)]
pub enum ParamError {
    /// Mode 5 was chosen with a theme other than Sami.
    ModeRequiresSami,
    /// Mode 20001 was chosen with a theme other than JieGarden.
    ModeRequiresJieGarden,
    /// The mode is neither one of 0 to 7 nor 20001.
    ModeOutOfRange,
    /// Mode 5 was chosen without an expected collapsal paradigm.
    MissingParadigms,
    /// A start with a seed was asked for, and no seed was given.
    MissingSeed,
    /// The target of mode 20001 is not one of 1, 2 and 3.
    TargetOutOfRange,
    /// Mode 20001 was chosen without a target.
    MissingTarget,
}

impl ParamError {
    /// The wording of the error.
    pub open spec fn text(self) -> Seq<char> {
        match self {
            ParamError::ModeRequiresSami => "Mode 5 is only available in Sami theme"@,
            ParamError::ModeRequiresJieGarden => "Mode 20001 is only available in JieGarden theme"@,
            ParamError::ModeOutOfRange => "Mode must be in range between 0 and 7, or 20001"@,
            ParamError::MissingParadigms => {
                "At least one expected collapsal paradigm is required when mode 5 is enabled"@
            },
            ParamError::MissingSeed => "Seed must be provided when start_with_seed is enabled"@,
            ParamError::TargetOutOfRange => "find_playtime_target must be between 1 and 3"@,
            ParamError::MissingTarget => {
                "find_playtime_target is required for JieGarden theme with mode 20001"@
            },
        }
    }

    /// The wording of the error, as a string.
    pub fn message(&self) -> (message: String)
        ensures
            message@ == self.text(),
    {
        match self {
            ParamError::ModeRequiresSami => "Mode 5 is only available in Sami theme".to_owned(),
            ParamError::ModeRequiresJieGarden => {
                "Mode 20001 is only available in JieGarden theme".to_owned()
            },
            ParamError::ModeOutOfRange => {
                "Mode must be in range between 0 and 7, or 20001".to_owned()
            },
            ParamError::MissingParadigms => {
                "At least one expected collapsal paradigm is required when mode 5 is enabled"
                    .to_owned()
            },
            ParamError::MissingSeed => {
                "Seed must be provided when start_with_seed is enabled".to_owned()
            },
            ParamError::TargetOutOfRange => {
                "find_playtime_target must be between 1 and 3".to_owned()
            },
            ParamError::MissingTarget => {
                "find_playtime_target is required for JieGarden theme with mode 20001".to_owned()
            },
        }
    }
}

/// What a warning is, as plain mathematics.
pub enum WarningView {
    SeedFlagIgnored,
    SeedIgnored,
    CollectibleIgnored,
    MonthlySquadIgnored,
    DeepExplorationIgnored,
    DifficultyIgnored,
    UnknownAward(Seq<char>),
}

/// Input that is ignored, with the reason.
#[derive(Debug, PartialEq, Eq)]
pub enum Warning {
    /// A start with a seed was asked for outside Sarkaz theme with mode 1.
    SeedFlagIgnored,
    /// A seed was given, and no start with a seed was asked for.
    SeedIgnored,
    /// Parameters of the collectible mode were given outside mode 4.
    CollectibleIgnored,
    /// Parameters of the monthly squad mode were given outside mode 6.
    MonthlySquadIgnored,
    /// Parameters of the deep exploration mode were given outside mode 7.
    DeepExplorationIgnored,
    /// A difficulty was given for Phantom theme.
    DifficultyIgnored,
    /// The list of start awards names an award that is not known.
    UnknownAward(String),
}

impl View for Warning {
    type V = WarningView;

    open spec fn view(&self) -> WarningView {
        match self {
            Warning::SeedFlagIgnored => WarningView::SeedFlagIgnored,
            Warning::SeedIgnored => WarningView::SeedIgnored,
            Warning::CollectibleIgnored => WarningView::CollectibleIgnored,
            Warning::MonthlySquadIgnored => WarningView::MonthlySquadIgnored,
            Warning::DeepExplorationIgnored => WarningView::DeepExplorationIgnored,
            Warning::DifficultyIgnored => WarningView::DifficultyIgnored,
            Warning::UnknownAward(award) => WarningView::UnknownAward(award@),
        }
    }
}

impl WarningView {
    /// The wording of the warning.
    pub open spec fn text(self) -> Seq<char> {
        match self {
            WarningView::SeedFlagIgnored => {
                "start_with_seed is only meaningful for Sarkaz theme with mode 1, ignoring"@
            },
            WarningView::SeedIgnored => {
                "seed is provided but start_with_seed is not enabled, ignoring"@
            },
            WarningView::CollectibleIgnored => {
                "Collectible mode parameters are only meaningful for mode 4, ignoring"@
            },
            WarningView::MonthlySquadIgnored => {
                "Monthly squad parameters are only meaningful for mode 6, ignoring"@
            },
            WarningView::DeepExplorationIgnored => {
                "Deep exploration parameters are only meaningful for mode 7, ignoring"@
            },
            WarningView::DifficultyIgnored => "Difficulty is not valid for Phantom theme, ignored"@,
            WarningView::UnknownAward(award) => "Unknown collectible start award: '"@ + award
                + "', ignoring"@,
        }
    }
}

impl Warning {
    /// The wording of the warning, as a string.
    pub fn message(&self) -> (message: String)
        ensures
            message@ == self@.text(),
    {
        match self {
            Warning::SeedFlagIgnored => {
                "start_with_seed is only meaningful for Sarkaz theme with mode 1, ignoring"
                    .to_owned()
            },
            Warning::SeedIgnored => {
                "seed is provided but start_with_seed is not enabled, ignoring".to_owned()
            },
            Warning::CollectibleIgnored => {
                "Collectible mode parameters are only meaningful for mode 4, ignoring".to_owned()
            },
            Warning::MonthlySquadIgnored => {
                "Monthly squad parameters are only meaningful for mode 6, ignoring".to_owned()
            },
            Warning::DeepExplorationIgnored => {
                "Deep exploration parameters are only meaningful for mode 7, ignoring".to_owned()
            },
            Warning::DifficultyIgnored => {
                "Difficulty is not valid for Phantom theme, ignored".to_owned()
            },
            Warning::UnknownAward(award) => "Unknown collectible start award: '".to_owned().concat(
                award.as_str(),
            ).concat("', ignoring"),
        }
    }
}

} // verus!
