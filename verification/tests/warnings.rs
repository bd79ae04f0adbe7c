use maa_roguelike::mode::validate_mode;
use maa_roguelike::{ParamError, RoguelikeParams, Theme, Warning};

/// Parameters with the three switches off that are on when nothing is given,
/// so that they give no warning outside their modes.
fn warnings(params: RoguelikeParams) -> Vec<Warning> {
    params.into_parameters_no_context().warnings
}

fn quiet(theme: Theme) -> RoguelikeParams {
    let mut params = RoguelikeParams::new(theme);
    params.monthly_squad_auto_iterate = false;
    params.monthly_squad_check_comms = false;
    params.deep_exploration_auto_iterate = false;
    params
}

#[test]
fn defaults_warn_of_the_switches_that_are_on() {
    let params = RoguelikeParams::new(Theme::Phantom);
    assert_eq!(
        warnings(params),
        vec![Warning::MonthlySquadIgnored, Warning::DeepExplorationIgnored]
    );
    let mut params = RoguelikeParams::new(Theme::Phantom);
    params.mode = 6;
    assert_eq!(warnings(params), vec![Warning::DeepExplorationIgnored]);
    let mut params = RoguelikeParams::new(Theme::Phantom);
    params.mode = 7;
    assert_eq!(warnings(params), vec![Warning::MonthlySquadIgnored]);
    assert!(warnings(quiet(Theme::Phantom)).is_empty());
}

#[test]
fn rejected_mode_gives_no_warning() {
    let mut params = RoguelikeParams::new(Theme::Phantom);
    params.mode = 5;
    params.difficulty = Some(3);
    params.seed = Some("1".to_string());
    assert!(warnings(params).is_empty());
    let mut params = RoguelikeParams::new(Theme::Sami);
    params.mode = 8;
    params.seed = Some("1".to_string());
    assert!(warnings(params).is_empty());
}

#[test]
fn difficulty_for_phantom_is_warned_of() {
    let mut params = quiet(Theme::Phantom);
    params.difficulty = Some(15);
    assert_eq!(warnings(params), vec![Warning::DifficultyIgnored]);
    let mut params = quiet(Theme::Mizuki);
    params.difficulty = Some(15);
    assert!(warnings(params).is_empty());
}

#[test]
fn seed_warnings() {
    // the flag outside Sarkaz with mode 1
    let mut params = quiet(Theme::Sarkaz);
    params.start_with_seed = true;
    params.seed = Some("7".to_string());
    assert_eq!(warnings(params), vec![Warning::SeedFlagIgnored]);
    let mut params = quiet(Theme::Mizuki);
    params.mode = 1;
    params.start_with_seed = true;
    assert_eq!(warnings(params), vec![Warning::SeedFlagIgnored]);
    // a seed without the flag
    let mut params = quiet(Theme::Sarkaz);
    params.mode = 1;
    params.seed = Some("7".to_string());
    assert_eq!(warnings(params), vec![Warning::SeedIgnored]);
    let mut params = quiet(Theme::Phantom);
    params.seed = Some("7".to_string());
    assert_eq!(warnings(params), vec![Warning::SeedIgnored]);
    // both as they belong
    let mut params = quiet(Theme::Sarkaz);
    params.mode = 1;
    params.start_with_seed = true;
    params.seed = Some("7".to_string());
    assert!(warnings(params).is_empty());
    // the flag without a seed is an error later, and no warning
    let mut params = quiet(Theme::Sarkaz);
    params.mode = 1;
    params.start_with_seed = true;
    let resolution = params.into_parameters_no_context();
    assert!(resolution.warnings.is_empty());
    assert_eq!(resolution.outcome, Err(ParamError::MissingSeed));
}

#[test]
fn collectible_parameters_outside_mode_four() {
    let mut params = quiet(Theme::Mizuki);
    params.collectible_squad = Some("s".to_string());
    assert_eq!(warnings(params), vec![Warning::CollectibleIgnored]);
    let mut params = quiet(Theme::Mizuki);
    params.collectible_shopping = true;
    assert_eq!(warnings(params), vec![Warning::CollectibleIgnored]);
    let mut params = quiet(Theme::Mizuki);
    params.collectible_start_awards = Some("nothing".to_string());
    assert_eq!(warnings(params), vec![Warning::CollectibleIgnored]);
    let mut params = quiet(Theme::Mizuki);
    params.mode = 4;
    params.collectible_squad = Some("s".to_string());
    params.collectible_shopping = true;
    params.collectible_start_awards = Some("hope".to_string());
    assert!(warnings(params).is_empty());
}

#[test]
fn unknown_awards_are_warned_of_one_by_one() {
    let mut params = quiet(Theme::Sami);
    params.mode = 4;
    params.collectible_start_awards = Some("hot_water,invalid,shield, other ,,".to_string());
    assert_eq!(
        warnings(params),
        vec![
            Warning::UnknownAward("invalid".to_string()),
            Warning::UnknownAward("other".to_string()),
        ]
    );
}

#[test]
fn warnings_come_in_a_fixed_order() {
    let mut params = RoguelikeParams::new(Theme::Phantom);
    params.mode = 0;
    params.start_with_seed = true;
    params.difficulty = Some(1);
    params.collectible_shopping = true;
    assert_eq!(
        warnings(params),
        vec![
            Warning::SeedFlagIgnored,
            Warning::CollectibleIgnored,
            Warning::MonthlySquadIgnored,
            Warning::DeepExplorationIgnored,
            Warning::DifficultyIgnored,
        ]
    );
    let mut params = RoguelikeParams::new(Theme::Phantom);
    params.mode = 4;
    params.seed = Some("s".to_string());
    params.difficulty = Some(1);
    params.collectible_start_awards = Some("x".to_string());
    assert_eq!(
        warnings(params),
        vec![
            Warning::SeedIgnored,
            Warning::MonthlySquadIgnored,
            Warning::DeepExplorationIgnored,
            Warning::DifficultyIgnored,
            Warning::UnknownAward("x".to_string()),
        ]
    );
}

#[test]
fn warnings_are_given_before_a_late_error() {
    let mut params = RoguelikeParams::new(Theme::JieGarden);
    params.mode = 20001;
    params.collectible_shopping = true;
    let resolution = params.into_parameters_no_context();
    assert_eq!(
        resolution.warnings,
        vec![
            Warning::CollectibleIgnored,
            Warning::MonthlySquadIgnored,
            Warning::DeepExplorationIgnored,
        ]
    );
    assert_eq!(resolution.outcome, Err(ParamError::MissingTarget));
}

#[test]
fn warning_messages() {
    assert_eq!(
        Warning::SeedFlagIgnored.message(),
        "start_with_seed is only meaningful for Sarkaz theme with mode 1, ignoring"
    );
    assert_eq!(
        Warning::SeedIgnored.message(),
        "seed is provided but start_with_seed is not enabled, ignoring"
    );
    assert_eq!(
        Warning::CollectibleIgnored.message(),
        "Collectible mode parameters are only meaningful for mode 4, ignoring"
    );
    assert_eq!(
        Warning::MonthlySquadIgnored.message(),
        "Monthly squad parameters are only meaningful for mode 6, ignoring"
    );
    assert_eq!(
        Warning::DeepExplorationIgnored.message(),
        "Deep exploration parameters are only meaningful for mode 7, ignoring"
    );
    assert_eq!(
        Warning::DifficultyIgnored.message(),
        "Difficulty is not valid for Phantom theme, ignored"
    );
    assert_eq!(
        Warning::UnknownAward("invalid".to_string()).message(),
        "Unknown collectible start award: 'invalid', ignoring"
    );
    assert_eq!(
        Warning::UnknownAward(String::new()).message(),
        "Unknown collectible start award: '', ignoring"
    );
}

#[test]
fn error_messages() {
    assert_eq!(ParamError::ModeRequiresSami.message(), "Mode 5 is only available in Sami theme");
    assert_eq!(
        ParamError::ModeRequiresJieGarden.message(),
        "Mode 20001 is only available in JieGarden theme"
    );
    assert_eq!(
        ParamError::ModeOutOfRange.message(),
        "Mode must be in range between 0 and 7, or 20001"
    );
    assert_eq!(
        ParamError::MissingParadigms.message(),
        "At least one expected collapsal paradigm is required when mode 5 is enabled"
    );
    assert_eq!(
        ParamError::MissingSeed.message(),
        "Seed must be provided when start_with_seed is enabled"
    );
    assert_eq!(
        ParamError::TargetOutOfRange.message(),
        "find_playtime_target must be between 1 and 3"
    );
    assert_eq!(
        ParamError::MissingTarget.message(),
        "find_playtime_target is required for JieGarden theme with mode 20001"
    );
}

#[test]
fn validate_mode_table() {
    let themes = [Theme::Phantom, Theme::Mizuki, Theme::Sami, Theme::Sarkaz, Theme::JieGarden];
    for theme in themes {
        for mode in [0, 1, 2, 3, 4, 6, 7] {
            assert_eq!(validate_mode(theme, mode), Ok(()));
        }
        for mode in [-1, 8, 20000, 20002, i32::MIN, i32::MAX] {
            assert_eq!(validate_mode(theme, mode), Err(ParamError::ModeOutOfRange));
        }
        let five = if theme == Theme::Sami { Ok(()) } else { Err(ParamError::ModeRequiresSami) };
        assert_eq!(validate_mode(theme, 5), five);
        let find = if theme == Theme::JieGarden {
            Ok(())
        } else {
            Err(ParamError::ModeRequiresJieGarden)
        };
        assert_eq!(validate_mode(theme, 20001), find);
    }
}
