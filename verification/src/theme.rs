//! Themes: what an application's colours are, and where they come from.
use vstd::prelude::*;

pub mod choice_laws;
pub mod color;
pub mod config;
pub mod editor;
pub mod file;
pub mod file_laws;
pub mod import;
pub mod laws;
pub mod registry;
pub mod resolve;
pub mod slot_laws;
pub mod vscode;
pub mod vscode_laws;

verus! {

/// Light or dark.
#[derive(Debug, Clone, Copy, PartialEq, Eq, Structural)]
pub enum ThemeMode {
    Light,
    Dark,
}

impl Default for ThemeMode {
    fn default() -> (mode: Self)
        ensures
            mode == ThemeMode::Light,
    {
        ThemeMode::Light
    }
}

impl ThemeMode {
    pub fn is_dark(self) -> (dark: bool)
        ensures
            dark == (self == ThemeMode::Dark),
    {
        self == ThemeMode::Dark
    }

    pub open spec fn spec_name(self) -> Seq<char> {
        match self {
            ThemeMode::Light => "light"@,
            ThemeMode::Dark => "dark"@,
        }
    }

    pub fn name(self) -> (name: &'static str)
        ensures
            name@ == self.spec_name(),
    {
        match self {
            ThemeMode::Light => "light",
            ThemeMode::Dark => "dark",
        }
    }
}

/// How a window looks to its platform.
#[derive(Debug, Clone, Copy, PartialEq, Eq, Structural)]
pub enum WindowAppearance {
    Light,
    VibrantLight,
    Dark,
    VibrantDark,
}

impl From<WindowAppearance> for ThemeMode {
    fn from(appearance: WindowAppearance) -> (mode: Self) {
        match appearance {
            WindowAppearance::Dark | WindowAppearance::VibrantDark => ThemeMode::Dark,
            WindowAppearance::Light | WindowAppearance::VibrantLight => ThemeMode::Light,
        }
    }
}

impl vstd::std_specs::convert::FromSpecImpl<WindowAppearance> for ThemeMode {
    open spec fn obeys_from_spec() -> bool {
        true
    }

    open spec fn from_spec(appearance: WindowAppearance) -> ThemeMode {
        if appearance == WindowAppearance::Dark || appearance == WindowAppearance::VibrantDark {
            ThemeMode::Dark
        } else {
            ThemeMode::Light
        }
    }
}

} // verus!
