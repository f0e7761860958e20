//! Home screen state and text.

use vstd::prelude::*;

use crate::text::{decimal, decimal_text, join3};

use super::common::{shown_size, ScreenFrameState};

verus! {

/// Render state owned by the home screen.
#[derive(Debug, Clone, PartialEq, Eq)]
pub struct HomeScreenState {
    /// Per-screen terminal and tick state.
    pub frame: ScreenFrameState,
}

/// The home screen's text for a draw area.
pub open spec fn home_text(state: HomeScreenState, area_width: u16, area_height: u16) -> Seq<char> {
    "Home\n\nSpotuify is ready.\n\nEvent loop: active\nDraw cycle: active\nTerminal: raw mode + alternate screen\nSize: "@
        + shown_size(state.frame, area_width, area_height) + "\nTicks: "@ + decimal(
        state.frame.ticks as nat,
    ) + "\n\nPress q, Esc, or Ctrl-C to quit."@
}

impl HomeScreenState {
    /// Builds the home screen text from its own render state.
    pub fn render_text(&self, area_width: u16, area_height: u16) -> (r: String)
        ensures
            r@ == home_text(*self, area_width, area_height),
    {
        let size = self.frame.size_label(area_width, area_height);
        let ticks = decimal_text(self.frame.ticks);
        let mut s = join3(
            "Home\n\nSpotuify is ready.\n\nEvent loop: active\nDraw cycle: active\nTerminal: raw mode + alternate screen\nSize: ",
            size.as_str(),
            "\nTicks: ",
        );
        s.append(ticks.as_str());
        s.append("\n\nPress q, Esc, or Ctrl-C to quit.");
        s
    }
}

impl Default for HomeScreenState {
    /// A fresh frame.
    fn default() -> (r: Self)
        ensures
            r.frame.ticks == 0,
            r.frame.terminal_size is None,
    {
        HomeScreenState { frame: ScreenFrameState::default() }
    }
}

} // verus!
