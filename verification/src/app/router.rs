//! Screen routing: a history stack whose last entry is the active screen.

use vstd::prelude::*;

verus! {

/// Logical screens that can be reached through app navigation.
#[derive(Debug, Clone, Copy, PartialEq, Eq, Hash, Structural)]
pub enum Screen {
    /// Default app entry screen.
    Home,
    /// First-run setup and config validation screen.
    Setup,
    /// Spotify authentication screen.
    Auth,
    /// Fatal error recovery screen.
    FatalError,
}

/// Navigation transitions supported by the app router.
#[derive(Debug, Clone, Copy, PartialEq, Eq, Structural)]
pub enum ScreenTransition {
    /// Add a screen to the top of the navigation stack.
    Push(Screen),
    /// Replace the current screen with another screen.
    Replace(Screen),
    /// Return to the previous screen when history exists.
    Back,
}

/// Screen navigation state for the running application.
#[derive(Debug, Clone, PartialEq, Eq)]
pub struct Router {
    /// Screen history stack, with the active screen at the end.
    pub stack: Vec<Screen>,
}

/// The display label of a screen.
pub open spec fn screen_label(screen: Screen) -> Seq<char> {
    match screen {
        Screen::Home => "Home"@,
        Screen::Setup => "Setup"@,
        Screen::Auth => "Auth"@,
        Screen::FatalError => "Fatal Error"@,
    }
}

/// The active screen of a history stack: its last entry, or `Home` when empty.
pub open spec fn current_screen(stack: Seq<Screen>) -> Screen {
    if stack.len() > 0 {
        stack.last()
    } else {
        Screen::Home
    }
}

/// The stack after a transition, and whether the transition changed it.
pub open spec fn navigate(stack: Seq<Screen>, transition: ScreenTransition) -> (Seq<Screen>, bool) {
    match transition {
        ScreenTransition::Push(screen) => if current_screen(stack) != screen {
            (stack.push(screen), true)
        } else {
            (stack, false)
        },
        ScreenTransition::Replace(screen) => if current_screen(stack) != screen {
            if stack.len() > 0 {
                (stack.update(stack.len() - 1, screen), true)
            } else {
                (seq![screen], true)
            }
        } else {
            (stack, false)
        },
        ScreenTransition::Back => if stack.len() > 1 {
            (stack.drop_last(), true)
        } else {
            (stack, false)
        },
    }
}

impl Screen {
    /// Returns the display label for a screen route.
    pub fn label(self) -> (r: &'static str)
        ensures
            r@ == screen_label(self),
    {
        match self {
            Screen::Home => "Home",
            Screen::Setup => "Setup",
            Screen::Auth => "Auth",
            Screen::FatalError => "Fatal Error",
        }
    }
}

impl Router {
    /// Creates router state with the default entry screen.
    pub fn new() -> (r: Self)
        ensures
            r.stack@ == seq![Screen::Home],
    {
        Router::with_initial_screen(Screen::Home)
    }

    /// Creates router state with a specific entry screen.
    pub fn with_initial_screen(screen: Screen) -> (r: Self)
        ensures
            r.stack@ == seq![screen],
    {
        let mut stack = Vec::new();
        stack.push(screen);
        Router { stack }
    }

    /// Returns the active screen.
    pub fn current(&self) -> (r: Screen)
        ensures
            r == current_screen(self.stack@),
    {
        let n = self.stack.len();
        if n > 0 {
            self.stack[n - 1]
        } else {
            Screen::Home
        }
    }

    /// Applies a transition and reports whether the stack changed.
    pub fn apply(&mut self, transition: ScreenTransition) -> (changed: bool)
        ensures
            (final(self).stack@, changed) == navigate(old(self).stack@, transition),
    {
        match transition {
            ScreenTransition::Push(screen) => {
                if self.current() != screen {
                    self.stack.push(screen);
                    true
                } else {
                    false
                }
            },
            ScreenTransition::Replace(screen) => {
                if self.current() != screen {
                    let n = self.stack.len();
                    if n > 0 {
                        self.stack.set(n - 1, screen);
                    } else {
                        self.stack.push(screen);
                    }
                    true
                } else {
                    false
                }
            },
            ScreenTransition::Back => {
                if self.stack.len() > 1 {
                    self.stack.pop();
                    true
                } else {
                    false
                }
            },
        }
    }
}

impl Default for Router {
    /// The router at the default entry screen.
    fn default() -> (r: Self)
        ensures
            r.stack@ == seq![Screen::Home],
    {
        Router::new()
    }
}

/// A transition reports a change exactly when it changes the stack.
pub proof fn law_navigate_reports_change(stack: Seq<Screen>, transition: ScreenTransition)
    ensures
        navigate(stack, transition).1 <==> navigate(stack, transition).0 != stack,
{
    match transition {
        ScreenTransition::Push(screen) => {
            if current_screen(stack) != screen {
                assert(stack.push(screen).len() != stack.len());
            }
        },
        ScreenTransition::Replace(screen) => {
            if current_screen(stack) != screen {
                if stack.len() > 0 {
                    let updated = stack.update(stack.len() - 1, screen);
                    assert(updated[stack.len() - 1] != stack[stack.len() - 1]);
                } else {
                    assert(seq![screen].len() != stack.len());
                }
            }
        },
        ScreenTransition::Back => {
            if stack.len() > 1 {
                assert(stack.drop_last().len() != stack.len());
            }
        },
    }
}

/// A history that is not empty stays non-empty under every transition.
pub proof fn law_navigate_keeps_history(stack: Seq<Screen>, transition: ScreenTransition)
    requires
        stack.len() > 0,
    ensures
        navigate(stack, transition).0.len() > 0,
{
}

/// After a push or a replace, the named screen is the active one.
pub proof fn law_navigate_reaches_target(stack: Seq<Screen>, screen: Screen)
    ensures
        current_screen(navigate(stack, ScreenTransition::Push(screen)).0) == screen,
        current_screen(navigate(stack, ScreenTransition::Replace(screen)).0) == screen,
{
}

/// Pushing a screen other than the active one and then going back restores the
/// history exactly.
pub proof fn law_push_then_back_restores(stack: Seq<Screen>, screen: Screen)
    requires
        stack.len() > 0,
        current_screen(stack) != screen,
    ensures
        navigate(navigate(stack, ScreenTransition::Push(screen)).0, ScreenTransition::Back).0
            == stack,
{
    assert(stack.push(screen).drop_last() =~= stack);
}

/// A replace keeps the depth of a non-empty history.
pub proof fn law_replace_keeps_depth(stack: Seq<Screen>, screen: Screen)
    requires
        stack.len() > 0,
    ensures
        navigate(stack, ScreenTransition::Replace(screen)).0.len() == stack.len(),
{
}

} // verus!
