//! Setup screen state and text.

use vstd::prelude::*;

use crate::config::{status_text, ConfigBootstrap};
use crate::text::{decimal, decimal_text, join3, owned};

use super::common::{shown_size, ScreenFrameState};

verus! {

/// Render state owned by the setup screen.
#[derive(Debug, Clone, PartialEq, Eq)]
pub struct SetupScreenState {
    /// Per-screen terminal and tick state.
    pub frame: ScreenFrameState,
    /// User-facing startup config status.
    pub config_status: String,
}

/// The setup screen's text for a draw area.
pub open spec fn setup_text(state: SetupScreenState, area_width: u16, area_height: u16) -> Seq<char> {
    "Setup\n\nConfig: "@ + state.config_status@
        + "\n\nEvent loop: active\nDraw cycle: active\nTerminal: raw mode + alternate screen\nSize: "@
        + shown_size(state.frame, area_width, area_height) + "\nTicks: "@ + decimal(
        state.frame.ticks as nat,
    ) + "\n\nPress q, Esc, or Ctrl-C to quit."@
}

impl SetupScreenState {
    /// Creates setup render state from startup config bootstrap data.
    pub fn from_config(config: &ConfigBootstrap) -> (r: Self)
        ensures
            r.config_status@ == status_text(*config),
            r.frame.ticks == 0,
            r.frame.terminal_size is None,
    {
        SetupScreenState { frame: ScreenFrameState::default(), config_status: config.status_label() }
    }

    /// Builds the setup screen text from its own render state.
    pub fn render_text(&self, area_width: u16, area_height: u16) -> (r: String)
        ensures
            r@ == setup_text(*self, area_width, area_height),
    {
        let size = self.frame.size_label(area_width, area_height);
        let ticks = decimal_text(self.frame.ticks);
        let mut s = join3("Setup\n\nConfig: ", self.config_status.as_str(),
            "\n\nEvent loop: active\nDraw cycle: active\nTerminal: raw mode + alternate screen\nSize: ");
        s.append(size.as_str());
        s.append("\nTicks: ");
        s.append(ticks.as_str());
        s.append("\n\nPress q, Esc, or Ctrl-C to quit.");
        s
    }
}

impl Default for SetupScreenState {
    /// State before the config has been checked.
    fn default() -> (r: Self)
        ensures
            r.config_status@ == "config not checked"@,
            r.frame.ticks == 0,
            r.frame.terminal_size is None,
    {
        SetupScreenState { frame: ScreenFrameState::default(), config_status: owned("config not checked") }
    }
}

} // verus!
