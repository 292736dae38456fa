use vstd::prelude::*;

use crate::window_model::WindowTheme;

verus! {

/// The system theme that SDL reports.
#[derive(Debug, Clone, Copy, PartialEq, Eq, Structural)]
pub enum SystemTheme {
    Unknown,
    Light,
    Dark,
}

/// The window theme for SDL's system theme: none when SDL does not know it.
pub fn theme_from_sdl(theme: SystemTheme) -> (window_theme: Option<WindowTheme>)
    ensures
        window_theme == match theme {
            SystemTheme::Unknown => None,
            SystemTheme::Light => Some(WindowTheme::Light),
            SystemTheme::Dark => Some(WindowTheme::Dark),
        },
{
    match theme {
        SystemTheme::Unknown => None,
        SystemTheme::Light => Some(WindowTheme::Light),
        SystemTheme::Dark => Some(WindowTheme::Dark),
    }
}

} // verus!
