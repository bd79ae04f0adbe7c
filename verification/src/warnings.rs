//! The warnings that a set of parameters gives rise to: one for each input
//! that is given and then ignored.

use crate::awards::{award_names, unknown_awards};
use crate::error::{Warning, WarningView};
use crate::mode::check_mode;
use crate::params::{RawOptions, RoguelikeParams};
use crate::text::texts;
use crate::theme::Theme;
use vstd::prelude::*;

verus! {

/// The warning, if the condition holds; else nothing.
pub open spec fn given_if(condition: bool, warning: WarningView) -> Seq<WarningView> {
    if condition {
        seq![warning]
    } else {
        Seq::empty()
    }
}

/// One warning for each of the names.
pub open spec fn unknown_award_warnings(names: Seq<Seq<char>>) -> Seq<WarningView> {
    names.map_values(|name: Seq<char>| WarningView::UnknownAward(name))
}

/// The warnings on the start awards: in mode 4, one for each name of the
/// list that is neither empty nor known.
pub open spec fn award_warnings(o: RawOptions) -> Seq<WarningView> {
    match o.collectible_start_awards {
        Some(list) => if o.mode == 4 {
            unknown_award_warnings(unknown_awards(award_names(list)))
        } else {
            Seq::empty()
        },
        None => Seq::empty(),
    }
}

/// Whether a start with a seed is asked for where it means nothing: outside
/// Sarkaz theme with mode 1.
pub open spec fn seed_flag_ignored(o: RawOptions) -> bool {
    o.start_with_seed && !(o.theme == Theme::Sarkaz && o.mode == 1)
}

/// Whether a seed is given without a start with a seed being asked for.
pub open spec fn seed_ignored(o: RawOptions) -> bool {
    o.seed is Some && !o.start_with_seed
}

/// Whether a parameter of the collectible mode is given outside mode 4.
pub open spec fn collectible_ignored(o: RawOptions) -> bool {
    o.mode != 4 && (o.collectible_squad is Some || o.collectible_shopping
        || o.collectible_start_awards is Some)
}

/// Whether a switch of the monthly squad mode is on outside mode 6.
pub open spec fn monthly_squad_ignored(o: RawOptions) -> bool {
    o.mode != 6 && (o.monthly_squad_auto_iterate || o.monthly_squad_check_comms)
}

/// Whether the switch of the deep exploration mode is on outside mode 7.
pub open spec fn deep_exploration_ignored(o: RawOptions) -> bool {
    o.mode != 7 && o.deep_exploration_auto_iterate
}

/// Whether a difficulty is given for Phantom theme.
pub open spec fn difficulty_ignored(o: RawOptions) -> bool {
    o.theme == Theme::Phantom && o.difficulty is Some
}

/// The warnings on input that is given and means nothing with the theme
/// and mode, in the order in which they are given.
pub open spec fn flag_warnings(o: RawOptions) -> Seq<WarningView> {
    Seq::empty() + given_if(seed_flag_ignored(o), WarningView::SeedFlagIgnored) + given_if(
        seed_ignored(o),
        WarningView::SeedIgnored,
    ) + given_if(collectible_ignored(o), WarningView::CollectibleIgnored) + given_if(
        monthly_squad_ignored(o),
        WarningView::MonthlySquadIgnored,
    ) + given_if(deep_exploration_ignored(o), WarningView::DeepExplorationIgnored) + given_if(
        difficulty_ignored(o),
        WarningView::DifficultyIgnored,
    )
}

/// The warnings on parameters that pass the check of the mode: those on
/// input that means nothing, then those on the start awards.
pub open spec fn ignored_input(o: RawOptions) -> Seq<WarningView> {
    flag_warnings(o) + award_warnings(o)
}

/// The warnings on a set of parameters. Where the mode cannot be chosen with
/// the theme there is none: nothing else is looked at.
pub open spec fn warnings_of(o: RawOptions) -> Seq<WarningView> {
    if check_mode(o.theme, o.mode) is Err {
        Seq::empty()
    } else {
        ignored_input(o)
    }
}

/// What a list of warnings holds.
pub open spec fn warning_views(warnings: Seq<Warning>) -> Seq<WarningView> {
    warnings.map_values(|warning: Warning| warning@)
}

/// What is found in two sequences put together is found in one of them.
proof fn lemma_contains_add(a: Seq<WarningView>, b: Seq<WarningView>, w: WarningView)
    ensures
        (a + b).contains(w) <==> a.contains(w) || b.contains(w),
{
    if a.contains(w) {
        let i = choose|i: int| 0 <= i < a.len() && a[i] == w;
        assert((a + b)[i] == w);
    }
    if b.contains(w) {
        let i = choose|i: int| 0 <= i < b.len() && b[i] == w;
        assert((a + b)[a.len() + i] == w);
    }
    if (a + b).contains(w) {
        let i = choose|i: int| 0 <= i < (a + b).len() && (a + b)[i] == w;
        if i < a.len() {
            assert(a[i] == w);
        } else {
            assert(b[i - a.len()] == w);
        }
    }
}

/// A warning that is given under a condition is found exactly when the
/// condition holds.
proof fn lemma_contains_given_if(condition: bool, given: WarningView, w: WarningView)
    ensures
        given_if(condition, given).contains(w) <==> condition && given == w,
{
    if condition {
        assert(given_if(condition, given)[0] == given);
    }
}

/// Which warnings are given: each of the six on ignored input exactly when
/// its condition holds, and one on an award exactly for the names of the
/// list of mode 4 that are neither empty nor known.
pub proof fn lemma_warning_conditions(o: RawOptions)
    requires
        check_mode(o.theme, o.mode) is Ok,
    ensures
        warnings_of(o).contains(WarningView::SeedFlagIgnored) <==> seed_flag_ignored(o),
        warnings_of(o).contains(WarningView::SeedIgnored) <==> seed_ignored(o),
        warnings_of(o).contains(WarningView::CollectibleIgnored) <==> collectible_ignored(o),
        warnings_of(o).contains(WarningView::MonthlySquadIgnored) <==> monthly_squad_ignored(o),
        warnings_of(o).contains(WarningView::DeepExplorationIgnored) <==> deep_exploration_ignored(
            o,
        ),
        warnings_of(o).contains(WarningView::DifficultyIgnored) <==> difficulty_ignored(o),
        forall|name: Seq<char>| #[trigger]
            warnings_of(o).contains(WarningView::UnknownAward(name)) <==> o.mode == 4
                && o.collectible_start_awards is Some && unknown_awards(
                award_names(o.collectible_start_awards->0),
            ).contains(name),
{
    let w0 = Seq::<WarningView>::empty();
    let c1 = given_if(seed_flag_ignored(o), WarningView::SeedFlagIgnored);
    let c2 = given_if(seed_ignored(o), WarningView::SeedIgnored);
    let c3 = given_if(collectible_ignored(o), WarningView::CollectibleIgnored);
    let c4 = given_if(monthly_squad_ignored(o), WarningView::MonthlySquadIgnored);
    let c5 = given_if(deep_exploration_ignored(o), WarningView::DeepExplorationIgnored);
    let c6 = given_if(difficulty_ignored(o), WarningView::DifficultyIgnored);
    let c7 = award_warnings(o);
    assert(warnings_of(o) == w0 + c1 + c2 + c3 + c4 + c5 + c6 + c7);
    assert forall|w: WarningView| #[trigger]
        warnings_of(o).contains(w) <==> {
            ||| seed_flag_ignored(o) && w == WarningView::SeedFlagIgnored
            ||| seed_ignored(o) && w == WarningView::SeedIgnored
            ||| collectible_ignored(o) && w == WarningView::CollectibleIgnored
            ||| monthly_squad_ignored(o) && w == WarningView::MonthlySquadIgnored
            ||| deep_exploration_ignored(o) && w == WarningView::DeepExplorationIgnored
            ||| difficulty_ignored(o) && w == WarningView::DifficultyIgnored
            ||| c7.contains(w)
        } by {
        lemma_contains_add(w0, c1, w);
        lemma_contains_add(w0 + c1, c2, w);
        lemma_contains_add(w0 + c1 + c2, c3, w);
        lemma_contains_add(w0 + c1 + c2 + c3, c4, w);
        lemma_contains_add(w0 + c1 + c2 + c3 + c4, c5, w);
        lemma_contains_add(w0 + c1 + c2 + c3 + c4 + c5, c6, w);
        lemma_contains_add(w0 + c1 + c2 + c3 + c4 + c5 + c6, c7, w);
        lemma_contains_given_if(seed_flag_ignored(o), WarningView::SeedFlagIgnored, w);
        lemma_contains_given_if(seed_ignored(o), WarningView::SeedIgnored, w);
        lemma_contains_given_if(collectible_ignored(o), WarningView::CollectibleIgnored, w);
        lemma_contains_given_if(monthly_squad_ignored(o), WarningView::MonthlySquadIgnored, w);
        lemma_contains_given_if(
            deep_exploration_ignored(o),
            WarningView::DeepExplorationIgnored,
            w,
        );
        lemma_contains_given_if(difficulty_ignored(o), WarningView::DifficultyIgnored, w);
    }
    assert forall|w: WarningView| #[trigger] c7.contains(w) implies w is UnknownAward by {
        let i = choose|i: int| 0 <= i < c7.len() && c7[i] == w;
        assert(c7[i] is UnknownAward);
    }
    assert forall|name: Seq<char>| #[trigger]
        c7.contains(WarningView::UnknownAward(name)) <==> o.mode == 4
            && o.collectible_start_awards is Some && unknown_awards(
            award_names(o.collectible_start_awards->0),
        ).contains(name) by {
        let w = WarningView::UnknownAward(name);
        if o.mode == 4 && o.collectible_start_awards is Some {
            let names = unknown_awards(award_names(o.collectible_start_awards->0));
            assert(c7 == unknown_award_warnings(names));
            if names.contains(name) {
                let i = choose|i: int| 0 <= i < names.len() && names[i] == name;
                assert(c7[i] == w);
            }
            if c7.contains(w) {
                let i = choose|i: int| 0 <= i < c7.len() && c7[i] == w;
                assert(names[i] == name);
            }
        }
    }
}

/// Adds the warning, if the condition holds.
fn warn_if(warnings: &mut Vec<Warning>, condition: bool, warning: Warning)
    ensures
        warning_views(final(warnings)@) == warning_views(old(warnings)@) + given_if(
            condition,
            warning@,
        ),
{
    if condition {
        warnings.push(warning);
        assert(warning_views(warnings@) =~= warning_views(old(warnings)@) + seq![warning@]);
    } else {
        assert(warning_views(warnings@) =~= warning_views(old(warnings)@) + Seq::empty());
    }
}

/// Adds one warning for each of the names.
pub(crate) fn warn_of_awards(warnings: &mut Vec<Warning>, names: &Vec<String>)
    ensures
        warning_views(final(warnings)@) == warning_views(old(warnings)@) + unknown_award_warnings(
            texts(names@),
        ),
{
    let ghost all = unknown_award_warnings(texts(names@));
    let mut i: usize = 0;
    assert(warning_views(warnings@) =~= warning_views(old(warnings)@) + all.take(0));
    while i < names.len()
        invariant
            i <= names.len(),
            all == unknown_award_warnings(texts(names@)),
            warning_views(warnings@) == warning_views(old(warnings)@) + all.take(i as int),
        decreases names.len() - i,
    {
        let ghost before = warning_views(warnings@);
        warnings.push(Warning::UnknownAward(names[i].clone()));
        assert(warning_views(warnings@) =~= before.push(all[i as int]));
        assert(before.push(all[i as int]) =~= warning_views(old(warnings)@) + all.take(i + 1));
        i += 1;
    }
    assert(all.take(names.len() as int) =~= all);
}

impl RoguelikeParams {
    /// The warnings on input that is given and means nothing with the theme
    /// and mode.
    pub(crate) fn warn_of_flags(&self) -> (warnings: Vec<Warning>)
        ensures
            warning_views(warnings@) == flag_warnings(self@),
    {
        let mut warnings: Vec<Warning> = Vec::new();
        assert(warning_views(warnings@) =~= Seq::empty());
        let theme = self.theme;
        let mode = self.mode;
        warn_if(
            &mut warnings,
            self.start_with_seed && !(theme == Theme::Sarkaz && mode == 1),
            Warning::SeedFlagIgnored,
        );
        warn_if(&mut warnings, self.seed.is_some() && !self.start_with_seed, Warning::SeedIgnored);
        warn_if(
            &mut warnings,
            mode != 4 && (self.collectible_squad.is_some() || self.collectible_shopping
                || self.collectible_start_awards.is_some()),
            Warning::CollectibleIgnored,
        );
        warn_if(
            &mut warnings,
            mode != 6 && (self.monthly_squad_auto_iterate || self.monthly_squad_check_comms),
            Warning::MonthlySquadIgnored,
        );
        warn_if(
            &mut warnings,
            mode != 7 && self.deep_exploration_auto_iterate,
            Warning::DeepExplorationIgnored,
        );
        warn_if(
            &mut warnings,
            theme == Theme::Phantom && self.difficulty.is_some(),
            Warning::DifficultyIgnored,
        );
        warnings
    }
}

} // verus!
