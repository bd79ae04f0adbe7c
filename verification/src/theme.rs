//! The themes a roguelike run can be played in.

use vstd::prelude::*;

verus! {

/// Theme of the roguelike.
#[derive(Clone, Copy, PartialEq, Eq, Debug, Structural)]
pub enum Theme {
    Phantom,
    Mizuki,
    Sami,
    Sarkaz,
    JieGarden,
}

impl Theme {
    /// The name under which the theme is written in a configuration.
    pub open spec fn name(self) -> Seq<char> {
        match self {
            Theme::Phantom => "Phantom"@,
            Theme::Mizuki => "Mizuki"@,
            Theme::Sami => "Sami"@,
            Theme::Sarkaz => "Sarkaz"@,
            Theme::JieGarden => "JieGarden"@,
        }
    }

    /// All themes, in the order of their declaration.
    pub open spec fn all() -> Seq<Theme> {
        seq![Theme::Phantom, Theme::Mizuki, Theme::Sami, Theme::Sarkaz, Theme::JieGarden]
    }

    pub fn to_str(self) -> (s: &'static str)
        ensures
            s@ == self.name(),
    {
        match self {
            Self::Phantom => "Phantom",
            Self::Mizuki => "Mizuki",
            Self::Sami => "Sami",
            Self::Sarkaz => "Sarkaz",
            Self::JieGarden => "JieGarden",
        }
    }

    pub fn value_variants<'a>() -> (variants: &'a [Theme])
        ensures
            variants@ == Theme::all(),
    {
        &[Self::Phantom, Self::Mizuki, Self::Sami, Self::Sarkaz, Self::JieGarden]
    }
}

/// No two themes have the same name.
pub proof fn lemma_names_differ(a: Theme, b: Theme)
    ensures
        a.name() == b.name() <==> a == b,
{
    reveal_strlit("Phantom");
    reveal_strlit("Mizuki");
    reveal_strlit("Sami");
    reveal_strlit("Sarkaz");
    reveal_strlit("JieGarden");
    assert("Phantom"@.len() == 7);
    assert("Mizuki"@.len() == 6 && "Mizuki"@[0] == 'M');
    assert("Sami"@.len() == 4);
    assert("Sarkaz"@.len() == 6 && "Sarkaz"@[0] == 'S');
    assert("JieGarden"@.len() == 9);
}

/// Every theme is one of the variants, and none of them comes twice.
pub proof fn lemma_all_themes(theme: Theme)
    ensures
        Theme::all().contains(theme),
        Theme::all().no_duplicates(),
{
    let all = Theme::all();
    assert(all[0] == Theme::Phantom);
    assert(all[1] == Theme::Mizuki);
    assert(all[2] == Theme::Sami);
    assert(all[3] == Theme::Sarkaz);
    assert(all[4] == Theme::JieGarden);
}

} // verus!
