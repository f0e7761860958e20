//! Screen identifiers and each screen's render state and text.
//!
//! The terminal components that draw these states live in the application
//! shell.

/// Screen-specific render state and text.
pub mod screens;

use vstd::prelude::*;

use crate::app::router::Screen;

verus! {

/// Component identifiers mounted in the terminal application.
#[derive(Debug, Clone, Copy, PartialEq, Eq, Hash, Structural)]
pub enum Id {
    /// Home screen component.
    Home,
    /// First-run setup screen component.
    Setup,
    /// Spotify authentication screen component.
    Auth,
    /// Fatal error screen component.
    FatalError,
}

/// The component that shows a screen route.
pub open spec fn id_for_screen(screen: Screen) -> Id {
    match screen {
        Screen::Home => Id::Home,
        Screen::Setup => Id::Setup,
        Screen::Auth => Id::Auth,
        Screen::FatalError => Id::FatalError,
    }
}

impl Id {
    /// Returns the component identifier for a logical screen route.
    pub fn from_screen(screen: Screen) -> (r: Self)
        ensures
            r == id_for_screen(screen),
    {
        match screen {
            Screen::Home => Id::Home,
            Screen::Setup => Id::Setup,
            Screen::Auth => Id::Auth,
            Screen::FatalError => Id::FatalError,
        }
    }
}

/// Distinct screens are shown by distinct components.
pub proof fn law_screen_ids_are_distinct(a: Screen, b: Screen)
    ensures
        id_for_screen(a) == id_for_screen(b) <==> a == b,
{
}

} // verus!
