//! The icon theme the tree and the panels draw with: Nerd Font "material"
//! glyphs or plain emoji.

use vstd::prelude::*;

verus! {

#[derive(Clone, Copy, PartialEq, Eq, Debug, Structural)]
pub enum IconTheme {
    Material,
    Emoji,
}

pub open spec fn theme_name_spec(t: IconTheme) -> Seq<char> {
    match t {
        IconTheme::Material => "material"@,
        IconTheme::Emoji => "emoji"@,
    }
}

pub open spec fn theme_from_name_spec(name: Seq<char>) -> Option<IconTheme> {
    if name == "material"@ {
        Some(IconTheme::Material)
    } else if name == "emoji"@ {
        Some(IconTheme::Emoji)
    } else {
        None
    }
}

impl IconTheme {
    /// The other theme (the `i` key).
    pub fn toggled(self) -> (r: IconTheme)
        ensures
            r != self,
    {
        match self {
            IconTheme::Material => IconTheme::Emoji,
            IconTheme::Emoji => IconTheme::Material,
        }
    }

    /// The name a theme is stored under.
    pub fn state_name(self) -> (r: &'static str)
        ensures
            r@ == theme_name_spec(self),
    {
        match self {
            IconTheme::Material => "material",
            IconTheme::Emoji => "emoji",
        }
    }

    pub fn from_state_name(name: &str) -> (r: Option<IconTheme>)
        ensures
            r == theme_from_name_spec(name@),
    {
        if crate::text::eq_strings(name, "material") {
            Some(IconTheme::Material)
        } else if crate::text::eq_strings(name, "emoji") {
            Some(IconTheme::Emoji)
        } else {
            None
        }
    }
}

/// A stored theme name reads back as the same theme.
pub proof fn lemma_theme_name_roundtrip(t: IconTheme)
    ensures
        theme_from_name_spec(theme_name_spec(t)) == Some(t),
{
    reveal_strlit("material");
    reveal_strlit("emoji");
    assert("material"@.len() != "emoji"@.len());
}

} // verus!
