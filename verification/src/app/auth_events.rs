//! How auth worker events reach the app: the action each one triggers, and the
//! step by which the shell drains the worker's channel.

use vstd::prelude::*;

use crate::auth::event::is_terminal_event;
use crate::auth::AuthEvent;

use super::action::Action;
use super::fatal::{auth_failure_details, fatal_from_auth_event};
use super::router::{Screen, ScreenTransition};

verus! {

/// Events after which the session is usable and the app moves on to Home.
pub open spec fn leads_home(event: AuthEvent) -> bool {
    ||| event is Cached
    ||| event is RefreshedCachedToken
    ||| event is Completed
}

/// Maps auth worker events into app-level state transitions.
pub fn action_for_auth_event(event: &AuthEvent) -> (r: Action)
    ensures
        event is Failed ==> (r matches Action::Fatal(f) && {
            &&& f.source@ == "Spotify auth"@
            &&& f.message@ == event->Failed_message@
            &&& f.details matches Some(d) && d@ == auth_failure_details()
        }),
        leads_home(*event) ==> r == Action::Navigate(ScreenTransition::Replace(Screen::Home)),
        !(event is Failed) && !leads_home(*event) ==> r == Action::RequestRedraw,
{
    if let Some(fatal) = fatal_from_auth_event(event) {
        Action::Fatal(fatal)
    } else {
        match event {
            AuthEvent::Cached { .. } => Action::Navigate(ScreenTransition::Replace(Screen::Home)),
            AuthEvent::RefreshedCachedToken { .. } => Action::Navigate(
                ScreenTransition::Replace(Screen::Home),
            ),
            AuthEvent::Completed { .. } => Action::Navigate(
                ScreenTransition::Replace(Screen::Home),
            ),
            _ => Action::RequestRedraw,
        }
    }
}

/// The terminal auth events are exactly those that take the app off the auth
/// screen: a failure to the fatal screen, a usable session to Home.
pub proof fn law_terminal_events_leave_auth_screen(event: AuthEvent)
    ensures
        is_terminal_event(event) <==> (event is Failed || leads_home(event)),
{
}

/// One poll of the auth worker's channel.
#[derive(Debug, Clone, PartialEq, Eq)]
pub enum AuthPoll {
    /// An event arrived.
    Received(AuthEvent),
    /// Nothing is waiting right now.
    Empty,
    /// The worker has gone away.
    Disconnected,
}

/// What the shell does after one poll of the auth worker's channel.
#[derive(Debug, Clone, PartialEq, Eq)]
pub struct AuthDrainStep {
    /// The event to apply, if one arrived.
    pub event: Option<AuthEvent>,
    /// Whether to poll again in this drain.
    pub keep_polling: bool,
    /// Whether to drop the channel once this drain is over.
    pub release_channel: bool,
}

/// Whether the channel is to be dropped after a drain step.
pub open spec fn release_after(release_so_far: bool, poll: AuthPoll) -> bool {
    match poll {
        AuthPoll::Received(event) => release_so_far || is_terminal_event(event),
        AuthPoll::Empty => release_so_far,
        AuthPoll::Disconnected => true,
    }
}

/// Decides one step of draining the auth channel; `release_so_far` says
/// whether an earlier poll of this drain already called for dropping it.
pub fn auth_drain_step(release_so_far: bool, poll: AuthPoll) -> (r: AuthDrainStep)
    ensures
        match poll {
            AuthPoll::Received(event) => {
                &&& r.event == Some(event)
                &&& r.keep_polling
            },
            AuthPoll::Empty => {
                &&& r.event is None
                &&& !r.keep_polling
            },
            AuthPoll::Disconnected => {
                &&& r.event is None
                &&& !r.keep_polling
            },
        },
        r.release_channel == release_after(release_so_far, poll),
        !release_so_far ==> (poll matches AuthPoll::Received(e) ==> (r.release_channel <==> (e is Cached
            || e is RefreshedCachedToken || e is Completed || e is Failed))),
{
    match poll {
        AuthPoll::Received(event) => {
            let terminal = event.is_terminal();
            AuthDrainStep {
                event: Some(event),
                keep_polling: true,
                release_channel: release_so_far || terminal,
            }
        },
        AuthPoll::Empty => AuthDrainStep {
            event: None,
            keep_polling: false,
            release_channel: release_so_far,
        },
        AuthPoll::Disconnected => AuthDrainStep {
            event: None,
            keep_polling: false,
            release_channel: true,
        },
    }
}

/// Once a drain has called for dropping the channel, no later poll takes it
/// back; a terminal event or a lost worker always calls for it; draining stops
/// exactly when nothing more is waiting or the worker is gone.
pub proof fn law_release_is_sticky(release_so_far: bool, poll: AuthPoll)
    ensures
        release_so_far ==> release_after(release_so_far, poll),
        poll matches AuthPoll::Received(e) && is_terminal_event(e) ==> release_after(
            release_so_far,
            poll,
        ),
        poll is Disconnected ==> release_after(release_so_far, poll),
{
}

/// A drain keeps the channel open across every event of a flow in progress
/// (startup, a token refresh, a reauthorization notice, the URL, a failed
/// browser launch, the wait for the callback, the code exchange); only the
/// events that end the flow (a cached or refreshed session, a completed
/// authorization, a failure) call for dropping it.
pub proof fn law_channel_stays_open_until_flow_ends(event: AuthEvent)
    ensures
        release_after(false, AuthPoll::Received(event)) <==> (event is Cached
            || event is RefreshedCachedToken || event is Completed || event is Failed),
        (event is Starting || event is RefreshingCachedToken || event is ReauthorizationRequired
            || event is AuthorizationUrl || event is BrowserOpenFailed
            || event is WaitingForCallback || event is ExchangingCode) ==> !release_after(
            false,
            AuthPoll::Received(event),
        ),
        !release_after(false, AuthPoll::Empty),
{
}

} // verus!
