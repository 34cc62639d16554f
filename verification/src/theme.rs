//! The site's colour theme: the visitor's preference and the theme it yields.
use vstd::prelude::*;

use crate::text::str_eq;

verus! {

broadcast use vstd::string::group_string_axioms;

/// A concrete colour theme.
#[derive(Debug, Clone, Copy, PartialEq, Eq, Structural)]
pub enum ThemeMode {
    Light,
    Dark,
}

/// What the visitor chose: follow the system, or a fixed theme.
#[derive(Debug, Clone, Copy, PartialEq, Eq, Structural)]
pub enum ThemePreference {
    System,
    Light,
    Dark,
}

/// The next preference in the toggle's cycle: system, light, dark, system.
pub open spec fn spec_cycle(p: ThemePreference) -> ThemePreference {
    match p {
        ThemePreference::System => ThemePreference::Light,
        ThemePreference::Light => ThemePreference::Dark,
        ThemePreference::Dark => ThemePreference::System,
    }
}

/// The stored name of a preference.
pub open spec fn preference_text(p: ThemePreference) -> Seq<char> {
    match p {
        ThemePreference::System => "system"@,
        ThemePreference::Light => "light"@,
        ThemePreference::Dark => "dark"@,
    }
}

impl ThemePreference {
    /// The next preference in the cycle.
    pub fn cycle(self) -> (r: Self)
        ensures
            r == spec_cycle(self),
    {
        match self {
            ThemePreference::System => ThemePreference::Light,
            ThemePreference::Light => ThemePreference::Dark,
            ThemePreference::Dark => ThemePreference::System,
        }
    }

    /// The theme shown: the system's when following it, else the fixed one.
    pub fn effective(self, system: ThemeMode) -> (r: ThemeMode)
        ensures
            r == (match self {
                ThemePreference::System => system,
                ThemePreference::Light => ThemeMode::Light,
                ThemePreference::Dark => ThemeMode::Dark,
            }),
    {
        match self {
            ThemePreference::System => system,
            ThemePreference::Light => ThemeMode::Light,
            ThemePreference::Dark => ThemeMode::Dark,
        }
    }

    /// The preference a stored value names; anything unknown, or nothing, follows the system.
    pub fn from_storage(value: Option<&str>) -> (r: Self)
        ensures
            r == (match value {
                Some(v) => if v@ == "light"@ {
                    ThemePreference::Light
                } else if v@ == "dark"@ {
                    ThemePreference::Dark
                } else {
                    ThemePreference::System
                },
                None => ThemePreference::System,
            }),
    {
        match value {
            Some(v) => if str_eq(v, "light") {
                ThemePreference::Light
            } else if str_eq(v, "dark") {
                ThemePreference::Dark
            } else {
                ThemePreference::System
            },
            None => ThemePreference::System,
        }
    }

    /// The name the preference is stored under.
    pub fn as_str(self) -> (r: &'static str)
        ensures
            r@ == preference_text(self),
    {
        match self {
            ThemePreference::System => "system",
            ThemePreference::Light => "light",
            ThemePreference::Dark => "dark",
        }
    }
}

/// Cycling three times brings the preference back.
pub proof fn lemma_cycle_period_three(p: ThemePreference)
    ensures
        spec_cycle(spec_cycle(spec_cycle(p))) == p,
        spec_cycle(p) != p,
{
}

/// Storing a preference and reading it back gives the same preference.
pub proof fn lemma_storage_round_trip(p: ThemePreference)
    ensures
        (if preference_text(p) == "light"@ {
            ThemePreference::Light
        } else if preference_text(p) == "dark"@ {
            ThemePreference::Dark
        } else {
            ThemePreference::System
        }) == p,
{
    reveal_strlit("light");
    reveal_strlit("dark");
    reveal_strlit("system");
    assert("system"@ != "light"@ && "system"@ != "dark"@ && "light"@ != "dark"@) by {
        assert("system"@.len() != "light"@.len());
        assert("system"@.len() != "dark"@.len());
        assert("light"@.len() != "dark"@.len());
    }
}

/// The label the theme toggle shows for a preference.
pub fn theme_label(preference: ThemePreference) -> (r: &'static str)
    ensures
        r@ == (match preference {
            ThemePreference::Light => "Light"@,
            ThemePreference::Dark => "Dark"@,
            ThemePreference::System => "System"@,
        }),
{
    match preference {
        ThemePreference::Light => "Light",
        ThemePreference::Dark => "Dark",
        ThemePreference::System => "System",
    }
}

} // verus!
