//! Shared app state and the reducer that applies actions to it.

use vstd::prelude::*;

use crate::config::{ConfigBootstrap, ConfigIssue};

use super::action::Action;
use super::router::{current_screen, navigate, Router, Screen, ScreenTransition};

verus! {

/// Shared state for the running application.
#[derive(Debug, Clone, PartialEq, Eq)]
pub struct AppState {
    /// Whether the main event loop should exit.
    pub should_quit: bool,
    /// Whether the terminal should be redrawn.
    pub needs_redraw: bool,
    /// Current screen route and navigation history.
    pub router: Router,
    /// Config bootstrap state loaded at startup.
    pub config: ConfigBootstrap,
}

/// One reducer step over the shell's flags and history:
/// `(should_quit, needs_redraw, stack)` after `action`.
pub open spec fn step(
    should_quit: bool,
    needs_redraw: bool,
    stack: Seq<Screen>,
    action: Action,
) -> (bool, bool, Seq<Screen>) {
    match action {
        Action::Quit => (true, true, stack),
        Action::Tick => (should_quit, true, stack),
        Action::Resize { .. } => (should_quit, true, stack),
        Action::Navigate(transition) => {
            let (next, changed) = navigate(stack, transition);
            (should_quit, needs_redraw || changed, next)
        },
        Action::Fatal(_) => (
            should_quit,
            true,
            navigate(stack, ScreenTransition::Replace(Screen::FatalError)).0,
        ),
        Action::RequestRedraw => (should_quit, true, stack),
        Action::Rendered => (should_quit, false, stack),
    }
}

/// The screen the app starts on for a config bootstrap state.
pub open spec fn initial_screen(config: ConfigBootstrap) -> Screen {
    if config is Ready {
        Screen::Auth
    } else {
        Screen::Setup
    }
}

impl AppState {
    /// The shell's flags and history, the part of the state that actions change.
    pub open spec fn shell(&self) -> (bool, bool, Seq<Screen>) {
        (self.should_quit, self.needs_redraw, self.router.stack@)
    }

    /// Creates the initial app state with the first draw requested.
    pub fn new(config: ConfigBootstrap) -> (r: Self)
        ensures
            !r.should_quit,
            r.needs_redraw,
            r.router.stack@ == seq![initial_screen(config)],
            r.config == config,
    {
        let initial = if config.is_ready() {
            Screen::Auth
        } else {
            Screen::Setup
        };
        let mut state = AppState {
            should_quit: false,
            needs_redraw: false,
            router: Router::with_initial_screen(initial),
            config,
        };
        state.apply(Action::RequestRedraw);
        state
    }

    /// Applies an action to the app state.
    pub fn apply(&mut self, action: Action)
        ensures
            final(self).shell() == step(
                old(self).should_quit,
                old(self).needs_redraw,
                old(self).router.stack@,
                action,
            ),
            final(self).config == old(self).config,
            final(self).should_quit == (old(self).should_quit || action is Quit),
    {
        match action {
            Action::Quit => {
                self.should_quit = true;
                self.needs_redraw = true;
            },
            Action::Tick => {
                self.needs_redraw = true;
            },
            Action::Resize { .. } => {
                self.needs_redraw = true;
            },
            Action::Navigate(transition) => {
                if self.router.apply(transition) {
                    self.needs_redraw = true;
                }
            },
            Action::Fatal(_) => {
                self.router.apply(ScreenTransition::Replace(Screen::FatalError));
                self.needs_redraw = true;
            },
            Action::RequestRedraw => {
                self.needs_redraw = true;
            },
            Action::Rendered => {
                self.needs_redraw = false;
            },
        }
    }
}

impl Default for AppState {
    /// State before any config is loaded: on the home screen, nothing pending.
    fn default() -> (r: Self)
        ensures
            !r.should_quit,
            !r.needs_redraw,
            r.router.stack@ == seq![Screen::Home],
            r.config == (ConfigBootstrap::NeedsSetup { path: None, issue: ConfigIssue::MissingFile }),
    {
        AppState {
            should_quit: false,
            needs_redraw: false,
            router: Router::default(),
            config: ConfigBootstrap::default(),
        }
    }
}

/// Once the app is marked to quit, no action unmarks it.
pub proof fn law_quit_is_permanent(needs_redraw: bool, stack: Seq<Screen>, action: Action)
    ensures
        step(true, needs_redraw, stack, action).0,
{
}

/// `Quit` always marks the app to quit and asks for a final draw.
pub proof fn law_quit_marks_shutdown(should_quit: bool, needs_redraw: bool, stack: Seq<Screen>)
    ensures
        step(should_quit, needs_redraw, stack, Action::Quit) == (true, true, stack),
{
}

/// `Rendered` clears the draw request; every action other than `Rendered` and
/// `Navigate` leaves a draw requested; `Navigate` requests one exactly when it
/// changes the history, and otherwise keeps the request as it was.
pub proof fn law_redraw_requests(
    should_quit: bool,
    needs_redraw: bool,
    stack: Seq<Screen>,
    action: Action,
)
    ensures
        action is Rendered ==> !step(should_quit, needs_redraw, stack, action).1,
        !(action is Rendered) && !(action is Navigate) ==> step(
            should_quit,
            needs_redraw,
            stack,
            action,
        ).1,
        action matches Action::Navigate(t) ==> step(should_quit, needs_redraw, stack, action).1 == (
        needs_redraw || navigate(stack, t).1),
{
}

/// A fatal error always leaves the fatal error screen active, in place of the
/// screen that was active, so the history keeps its depth.
pub proof fn law_fatal_shows_error_screen(
    should_quit: bool,
    needs_redraw: bool,
    stack: Seq<Screen>,
    error: super::fatal::FatalError,
)
    requires
        stack.len() > 0,
    ensures
        current_screen(step(should_quit, needs_redraw, stack, Action::Fatal(error)).2)
            == Screen::FatalError,
        step(should_quit, needs_redraw, stack, Action::Fatal(error)).2.len() == stack.len(),
        step(should_quit, needs_redraw, stack, Action::Fatal(error)).1,
{
}

/// Only `Navigate` and `Fatal` touch the history; a non-empty history stays
/// non-empty.
pub proof fn law_history_only_moves_by_navigation(
    should_quit: bool,
    needs_redraw: bool,
    stack: Seq<Screen>,
    action: Action,
)
    ensures
        !(action is Navigate) && !(action is Fatal) ==> step(
            should_quit,
            needs_redraw,
            stack,
            action,
        ).2 == stack,
        stack.len() > 0 ==> step(should_quit, needs_redraw, stack, action).2.len() > 0,
{
}

/// Only `Quit` makes the app quit: every other action (a tick, a resize, a
/// redraw request, a render, a navigation or a fatal error) leaves the quit
/// flag as it was, and `Quit` sets it.
pub proof fn law_only_quit_quits(
    should_quit: bool,
    needs_redraw: bool,
    stack: Seq<Screen>,
    action: Action,
)
    ensures
        !(action is Quit) ==> step(should_quit, needs_redraw, stack, action).0 == should_quit,
        action is Quit ==> step(should_quit, needs_redraw, stack, action).0,
{
}

} // verus!
