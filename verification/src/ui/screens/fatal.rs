//! Fatal error screen state and text.

use vstd::prelude::*;

use crate::app::fatal::FatalError;

use super::common::ScreenFrameState;

verus! {

/// Render state owned by the fatal error screen.
#[derive(Debug, Clone, PartialEq, Eq)]
pub struct FatalScreenState {
    /// Per-screen terminal and tick state.
    pub frame: ScreenFrameState,
    /// Fatal error subsystem rendered on the fatal error screen.
    pub source: Option<&'static str>,
    /// Fatal error message rendered on the fatal error screen.
    pub message: Option<String>,
    /// Fatal error next-step details rendered on the fatal error screen.
    pub details: Option<String>,
}

/// The fatal screen's text.
pub open spec fn fatal_text(state: FatalScreenState) -> Seq<char> {
    let source = match state.source {
        Some(s) => s@,
        None => "Unknown subsystem"@,
    };
    let message = match state.message {
        Some(m) => m@,
        None => "Unrecoverable error."@,
    };
    let next_steps = match state.details {
        Some(d) => if d@.len() > 0 {
            "\n\nNext steps:\n"@ + d@
        } else {
            Seq::empty()
        },
        None => Seq::empty(),
    };
    source + " encountered an unrecoverable error.\n\n"@ + message + next_steps
        + "\n\nPress q, Esc, or Ctrl-C to quit."@
}

impl FatalScreenState {
    /// Stores a fatal error for rendering.
    pub fn apply(&mut self, error: FatalError)
        ensures
            final(self).source == Some(error.source),
            final(self).message == Some(error.message),
            final(self).details == error.details,
            final(self).frame == old(self).frame,
    {
        self.source = Some(error.source);
        self.message = Some(error.message);
        self.details = error.details;
    }

    /// Builds the fatal screen text from its own render state.
    pub fn render_text(&self) -> (r: String)
        ensures
            r@ == fatal_text(*self),
    {
        let source = match self.source {
            Some(s) => s,
            None => "Unknown subsystem",
        };
        let message = match &self.message {
            Some(m) => m.as_str(),
            None => "Unrecoverable error.",
        };
        let mut s = source.to_owned();
        s.append(" encountered an unrecoverable error.\n\n");
        s.append(message);
        if let Some(details) = &self.details {
            if details.as_str().unicode_len() > 0 {
                s.append("\n\nNext steps:\n");
                s.append(details.as_str());
            }
        }
        s.append("\n\nPress q, Esc, or Ctrl-C to quit.");
        s
    }
}

impl Default for FatalScreenState {
    /// No error stored yet.
    fn default() -> (r: Self)
        ensures
            r.frame.ticks == 0,
            r.frame.terminal_size is None,
            r.source is None,
            r.message is None,
            r.details is None,
    {
        FatalScreenState {
            frame: ScreenFrameState::default(),
            source: None,
            message: None,
            details: None,
        }
    }
}

} // verus!
