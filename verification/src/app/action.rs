//! Actions handled by the central state dispatcher.

use vstd::prelude::*;

use super::fatal::FatalError;
use super::msg::Msg;
use super::router::ScreenTransition;

verus! {

/// Actions handled by the central state dispatcher.
#[derive(Debug, Clone, PartialEq, Eq)]
pub enum Action {
    /// Mark the app as ready to shut down.
    Quit,
    /// Advance time-dependent shell state.
    Tick,
    /// Store the latest terminal size.
    Resize { width: u16, height: u16 },
    /// Apply a screen navigation transition.
    Navigate(ScreenTransition),
    /// Surface an unrecoverable error and route to the fatal error screen.
    Fatal(FatalError),
    /// Mark the UI as needing a redraw.
    RequestRedraw,
    /// Mark the current draw request as handled.
    Rendered,
}

/// The action that a component message stands for.
pub open spec fn action_for_msg(msg: Msg) -> Action {
    match msg {
        Msg::Quit => Action::Quit,
        Msg::Tick => Action::Tick,
        Msg::WindowResize { width, height } => Action::Resize { width, height },
        Msg::Navigate(transition) => Action::Navigate(transition),
        Msg::Fatal(error) => Action::Fatal(error),
    }
}

impl From<Msg> for Action {
    fn from(msg: Msg) -> (r: Self) {
        match msg {
            Msg::Quit => Action::Quit,
            Msg::Tick => Action::Tick,
            Msg::WindowResize { width, height } => Action::Resize { width, height },
            Msg::Navigate(transition) => Action::Navigate(transition),
            Msg::Fatal(error) => Action::Fatal(error),
        }
    }
}

impl vstd::std_specs::convert::FromSpecImpl<Msg> for Action {
    open spec fn obeys_from_spec() -> bool {
        true
    }

    open spec fn from_spec(msg: Msg) -> Action {
        action_for_msg(msg)
    }
}

} // verus!
