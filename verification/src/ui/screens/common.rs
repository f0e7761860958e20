//! Frame metadata kept by every screen, and the app-wide keys and terminal
//! events each screen handles alike.

use vstd::prelude::*;

use crate::app::msg::Msg;
use crate::text::{decimal, decimal_text, join3};

verus! {

/// Render state shared by each screen component, but owned per screen.
#[derive(Debug, Clone, PartialEq, Eq)]
pub struct ScreenFrameState {
    /// Number of tick events observed while the screen is active.
    pub ticks: u64,
    /// Most recent terminal size observed while the screen is active.
    pub terminal_size: Option<(u16, u16)>,
}

/// A key as the screens tell keys apart.
#[derive(Debug, Clone, Copy, PartialEq, Eq, Structural)]
pub enum KeyCode {
    /// The escape key.
    Esc,
    /// A character key.
    Char(char),
    /// Any other key.
    Other,
}

/// A terminal event as the screens tell events apart.
#[derive(Debug, Clone, Copy, PartialEq, Eq, Structural)]
pub enum TerminalEvent {
    /// A key press; `control` says whether the Control modifier was held.
    Key { code: KeyCode, control: bool },
    /// The terminal was resized to `(width, height)`.
    WindowResize(u16, u16),
    /// A periodic tick.
    Tick,
    /// Any other event.
    Other,
}

/// The `WIDTHxHEIGHT` label of a size.
pub open spec fn size_text(width: u16, height: u16) -> Seq<char> {
    decimal(width as nat) + "x"@ + decimal(height as nat)
}

/// The size a screen reports: the last terminal size it saw, else its draw area.
pub open spec fn shown_size(frame: ScreenFrameState, area_width: u16, area_height: u16) -> Seq<char> {
    match frame.terminal_size {
        Some((w, h)) => size_text(w, h),
        None => size_text(area_width, area_height),
    }
}

/// Keys that quit the app from any screen: Esc, `q`, `Q`, and Ctrl-C.
pub open spec fn is_quit_key(code: KeyCode, control: bool) -> bool {
    ||| code == KeyCode::Esc
    ||| code == KeyCode::Char('q')
    ||| code == KeyCode::Char('Q')
    ||| (code == KeyCode::Char('c') && control)
}

fn size_label_text(width: u16, height: u16) -> (r: String)
    ensures
        r@ == size_text(width, height),
{
    let w = decimal_text(width as u64);
    let h = decimal_text(height as u64);
    join3(w.as_str(), "x", h.as_str())
}

impl ScreenFrameState {
    /// Returns a user-facing terminal size label, falling back to the draw area.
    pub fn size_label(&self, area_width: u16, area_height: u16) -> (r: String)
        ensures
            r@ == shown_size(*self, area_width, area_height),
    {
        match self.terminal_size {
            Some((w, h)) => size_label_text(w, h),
            None => size_label_text(area_width, area_height),
        }
    }

    /// Records a tick without overflowing the counter.
    pub fn record_tick(&mut self)
        ensures
            final(self).ticks == if old(self).ticks == u64::MAX {
                u64::MAX
            } else {
                (old(self).ticks + 1) as u64
            },
            final(self).terminal_size == old(self).terminal_size,
    {
        if self.ticks < u64::MAX {
            self.ticks = self.ticks + 1;
        }
    }

    /// Records the latest terminal dimensions for this screen.
    pub fn record_resize(&mut self, width: u16, height: u16)
        ensures
            final(self).terminal_size == Some((width, height)),
            final(self).ticks == old(self).ticks,
    {
        self.terminal_size = Some((width, height));
    }
}

impl Default for ScreenFrameState {
    /// No ticks seen and no terminal size known yet.
    fn default() -> (r: Self)
        ensures
            r.ticks == 0,
            r.terminal_size is None,
    {
        ScreenFrameState { ticks: 0, terminal_size: None }
    }
}

/// Handles app-wide keyboard and terminal events for a screen component.
pub fn handle_common_event(frame_state: &mut ScreenFrameState, event: &TerminalEvent) -> (r:
    Option<Msg>)
    ensures
        *event matches TerminalEvent::Key { code: KeyCode::Char(ch), control } ==> (ch != 'q' && ch
            != 'Q' && ch != 'c' ==> r is None),
        *event matches TerminalEvent::Key { code: KeyCode::Char(ch), control } ==> (ch == 'c' ==> (r
            is Some <==> control)),
        match *event {
            TerminalEvent::Key { code, control } => {
                &&& is_quit_key(code, control) ==> r == Some(Msg::Quit)
                &&& !is_quit_key(code, control) ==> r is None
                &&& *final(frame_state) == *old(frame_state)
            },
            TerminalEvent::WindowResize(width, height) => {
                &&& r == Some(Msg::WindowResize { width, height })
                &&& final(frame_state).terminal_size == Some((width, height))
                &&& final(frame_state).ticks == old(frame_state).ticks
            },
            TerminalEvent::Tick => {
                &&& r == Some(Msg::Tick)
                &&& final(frame_state).ticks == if old(frame_state).ticks == u64::MAX {
                    u64::MAX
                } else {
                    (old(frame_state).ticks + 1) as u64
                }
                &&& final(frame_state).terminal_size == old(frame_state).terminal_size
            },
            TerminalEvent::Other => {
                &&& r is None
                &&& *final(frame_state) == *old(frame_state)
            },
        },
{
    match *event {
        TerminalEvent::Key { code, control } => {
            let quit = match code {
                KeyCode::Esc => true,
                KeyCode::Char(c) => c == 'q' || c == 'Q' || (c == 'c' && control),
                KeyCode::Other => false,
            };
            if quit {
                Some(Msg::Quit)
            } else {
                None
            }
        },
        TerminalEvent::WindowResize(width, height) => {
            frame_state.record_resize(width, height);
            Some(Msg::WindowResize { width, height })
        },
        TerminalEvent::Tick => {
            frame_state.record_tick();
            Some(Msg::Tick)
        },
        TerminalEvent::Other => None,
    }
}

/// Holding Control changes nothing but `c`: Ctrl-C quits, a plain `c` does
/// not; `q`, `Q` and Esc quit with or without it, and no other character or
/// key quits at all.
pub proof fn law_only_ctrl_c_chord_quits(code: KeyCode)
    ensures
        code != KeyCode::Char('c') ==> is_quit_key(code, true) == is_quit_key(code, false),
        is_quit_key(KeyCode::Char('c'), true),
        !is_quit_key(KeyCode::Char('c'), false),
        is_quit_key(KeyCode::Esc, false) && is_quit_key(KeyCode::Char('q'), false)
            && is_quit_key(KeyCode::Char('Q'), false),
        !is_quit_key(KeyCode::Other, true),
        forall|ch: char, control: bool|
            ch != 'q' && ch != 'Q' && ch != 'c' ==> !#[trigger] is_quit_key(KeyCode::Char(ch), control),
{
}

} // verus!
