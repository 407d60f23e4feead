//! Colour theme of the setup window, as stored in the configuration file.

use vstd::prelude::*;

verus! {

/// The two colour themes the setup window can be shown in.
#[derive(Clone, Copy, Debug, PartialEq, Eq, Structural)]
pub enum Theme {
    Light,
    Dark,
}

impl Default for Theme {
    /// The setup window starts dark.
    fn default() -> (theme: Self)
        ensures
            theme == Theme::Dark,
    {
        Theme::Dark
    }
}

impl Theme {
    /// The theme a stored name stands for: `"light"` is light, every other
    /// text is dark.
    pub open spec fn of_name(name: Seq<char>) -> Theme {
        if name == "light"@ {
            Theme::Light
        } else {
            Theme::Dark
        }
    }

    /// The name under which a theme is stored.
    pub open spec fn name(self) -> Seq<char> {
        match self {
            Theme::Light => "light"@,
            Theme::Dark => "dark"@,
        }
    }

    /// The other theme.
    pub open spec fn flipped(self) -> Theme {
        match self {
            Theme::Light => Theme::Dark,
            Theme::Dark => Theme::Light,
        }
    }

    /// Reads a theme from its stored name.
    pub fn from_str(s: &str) -> (theme: Theme)
        ensures
            theme == Theme::of_name(s@),
    {
        if s.to_owned() == "light".to_owned() {
            Theme::Light
        } else {
            Theme::Dark
        }
    }

    /// The name to store for this theme.
    pub fn to_str(&self) -> (name: &'static str)
        ensures
            name@ == self.name(),
    {
        match self {
            Theme::Light => "light",
            Theme::Dark => "dark",
        }
    }

    /// Switches between light and dark.
    pub fn toggled(self) -> (theme: Theme)
        ensures
            theme == self.flipped(),
    {
        match self {
            Theme::Light => Theme::Dark,
            Theme::Dark => Theme::Light,
        }
    }
}

/// A stored name is read back as the theme it was written for.
pub proof fn lemma_name_round_trip(theme: Theme)
    ensures
        Theme::of_name(theme.name()) == theme,
{
    reveal_strlit("light");
    reveal_strlit("dark");
    if theme == Theme::Dark {
        assert("dark"@.len() == 4);
        assert("light"@.len() == 5);
        assert("dark"@ != "light"@);
    }
}

} // verus!
