//! Spotify auth screen state: the status shown for each auth worker event, and
//! the screen's text.

use vstd::prelude::*;

use crate::auth::AuthEvent;
use crate::config::ConfigBootstrap;
use crate::text::{decimal, decimal_text, join2, join3, owned};

use super::common::{shown_size, ScreenFrameState};

verus! {

/// User-facing auth state owned by the auth screen.
#[derive(Debug, Clone, PartialEq, Eq)]
pub struct AuthScreenState {
    /// Per-screen terminal and tick state.
    pub frame: ScreenFrameState,
    /// Current auth status label.
    pub status: String,
    /// Authorization URL shown when browser launch fails or manual copy is needed.
    pub authorize_url: Option<String>,
    /// Browser launch failure retained while the callback listener waits.
    pub browser_open_error: Option<String>,
}

/// The status line for an event. `browser_failed` says whether a browser
/// launch failure is on record, which changes the waiting message.
pub open spec fn event_status(event: AuthEvent, browser_failed: bool) -> Seq<char> {
    match event {
        AuthEvent::Starting => "Spotify auth starting"@,
        AuthEvent::Cached { cache_path } => "Spotify session loaded from cached token at "@
            + cache_path@,
        AuthEvent::RefreshingCachedToken { cache_path } => "Spotify cached token at "@
            + cache_path@ + " expired; refreshing session"@,
        AuthEvent::RefreshedCachedToken { cache_path } => "Spotify session refreshed and saved at "@
            + cache_path@,
        AuthEvent::ReauthorizationRequired { message } => message@,
        AuthEvent::AuthorizationUrl { callback_addr, .. } =>
            "Spotify authorization URL generated; waiting on "@ + callback_addr@,
        AuthEvent::BrowserOpenFailed { message } =>
            "Could not open browser automatically; copy the auth URL below ("@ + message@ + ")"@,
        AuthEvent::WaitingForCallback { callback_addr } => if browser_failed {
            "Waiting for Spotify callback on "@ + callback_addr@
                + "; browser did not open automatically"@
        } else {
            "Waiting for Spotify callback on "@ + callback_addr@
        },
        AuthEvent::ExchangingCode => "Spotify callback received; exchanging code for tokens"@,
        AuthEvent::Completed { cache_path } => "Spotify session authenticated and saved at "@
            + cache_path@,
        AuthEvent::Failed { message } => "Spotify auth failed: "@ + message@,
    }
}

/// The authorization URL kept after an event: set by a new URL, cleared when
/// the flow restarts, resolves or asks for reauthorization, kept otherwise.
pub open spec fn url_after(event: AuthEvent, url: Option<String>) -> Option<String> {
    match event {
        AuthEvent::AuthorizationUrl { url: new_url, .. } => Some(new_url),
        AuthEvent::BrowserOpenFailed { .. } => url,
        AuthEvent::WaitingForCallback { .. } => url,
        AuthEvent::ExchangingCode => url,
        AuthEvent::Failed { .. } => url,
        _ => None,
    }
}

/// The browser failure kept after an event: set by a failed launch, kept while
/// the flow waits, cleared otherwise.
pub open spec fn browser_error_after(event: AuthEvent, error: Option<String>) -> Option<String> {
    match event {
        AuthEvent::BrowserOpenFailed { message } => Some(message),
        AuthEvent::AuthorizationUrl { .. } => error,
        AuthEvent::WaitingForCallback { .. } => error,
        AuthEvent::ExchangingCode => error,
        _ => None,
    }
}

/// The auth screen's text for a draw area.
pub open spec fn auth_text(state: AuthScreenState, area_width: u16, area_height: u16) -> Seq<char> {
    let url_part = match state.authorize_url {
        Some(url) => if url@.len() > 0 {
            "\n\nSpotify auth URL:\n"@ + url@
        } else {
            Seq::empty()
        },
        None => Seq::empty(),
    };
    "Spotify Auth\n\nStatus: "@ + state.status@
        + "\n\nEvent loop: active\nDraw cycle: active\nTerminal: raw mode + alternate screen\nSize: "@
        + shown_size(state.frame, area_width, area_height) + "\nTicks: "@ + decimal(
        state.frame.ticks as nat,
    ) + url_part + "\n\nPress q, Esc, or Ctrl-C to quit."@
}

impl AuthScreenState {
    /// Creates initial auth UI state from startup config readiness.
    pub fn from_config(config: &ConfigBootstrap) -> (r: Self)
        ensures
            r.status@ == if *config is Ready {
                "Spotify auth starting"@
            } else {
                "Spotify auth waiting for setup"@
            },
            r.authorize_url is None,
            r.browser_open_error is None,
            r.frame.ticks == 0,
            r.frame.terminal_size is None,
    {
        if config.is_ready() {
            AuthScreenState {
                frame: ScreenFrameState::default(),
                status: owned("Spotify auth starting"),
                authorize_url: None,
                browser_open_error: None,
            }
        } else {
            AuthScreenState {
                frame: ScreenFrameState::default(),
                status: owned("Spotify auth waiting for setup"),
                authorize_url: None,
                browser_open_error: None,
            }
        }
    }

    /// Applies an auth worker event to the rendered status.
    pub fn apply(&mut self, event: AuthEvent)
        ensures
            final(self).status@ == event_status(event, old(self).browser_open_error is Some),
            final(self).authorize_url == url_after(event, old(self).authorize_url),
            final(self).browser_open_error == browser_error_after(
                event,
                old(self).browser_open_error,
            ),
            final(self).frame == old(self).frame,
    {
        match event {
            AuthEvent::Starting => {
                self.status = owned("Spotify auth starting");
                self.authorize_url = None;
                self.browser_open_error = None;
            },
            AuthEvent::Cached { cache_path } => {
                self.status = join2(
                    "Spotify session loaded from cached token at ",
                    cache_path.as_str(),
                );
                self.authorize_url = None;
                self.browser_open_error = None;
            },
            AuthEvent::RefreshingCachedToken { cache_path } => {
                self.status = join3(
                    "Spotify cached token at ",
                    cache_path.as_str(),
                    " expired; refreshing session",
                );
                self.authorize_url = None;
                self.browser_open_error = None;
            },
            AuthEvent::RefreshedCachedToken { cache_path } => {
                self.status = join2("Spotify session refreshed and saved at ", cache_path.as_str());
                self.authorize_url = None;
                self.browser_open_error = None;
            },
            AuthEvent::ReauthorizationRequired { message } => {
                self.status = message;
                self.authorize_url = None;
                self.browser_open_error = None;
            },
            AuthEvent::AuthorizationUrl { url, callback_addr } => {
                self.status = join2(
                    "Spotify authorization URL generated; waiting on ",
                    callback_addr.as_str(),
                );
                self.authorize_url = Some(url);
            },
            AuthEvent::BrowserOpenFailed { message } => {
                self.status = join3(
                    "Could not open browser automatically; copy the auth URL below (",
                    message.as_str(),
                    ")",
                );
                self.browser_open_error = Some(message);
            },
            AuthEvent::WaitingForCallback { callback_addr } => {
                self.status = if self.browser_open_error.is_some() {
                    join3(
                        "Waiting for Spotify callback on ",
                        callback_addr.as_str(),
                        "; browser did not open automatically",
                    )
                } else {
                    join2("Waiting for Spotify callback on ", callback_addr.as_str())
                };
            },
            AuthEvent::ExchangingCode => {
                self.status = owned("Spotify callback received; exchanging code for tokens");
            },
            AuthEvent::Completed { cache_path } => {
                self.status = join2(
                    "Spotify session authenticated and saved at ",
                    cache_path.as_str(),
                );
                self.authorize_url = None;
                self.browser_open_error = None;
            },
            AuthEvent::Failed { message } => {
                self.status = join2("Spotify auth failed: ", message.as_str());
                self.browser_open_error = None;
            },
        }
    }

    /// Builds the auth screen text from its own render state.
    pub fn render_text(&self, area_width: u16, area_height: u16) -> (r: String)
        ensures
            r@ == auth_text(*self, area_width, area_height),
    {
        let size = self.frame.size_label(area_width, area_height);
        let ticks = decimal_text(self.frame.ticks);
        let mut s = join3("Spotify Auth\n\nStatus: ", self.status.as_str(),
            "\n\nEvent loop: active\nDraw cycle: active\nTerminal: raw mode + alternate screen\nSize: ");
        s.append(size.as_str());
        s.append("\nTicks: ");
        s.append(ticks.as_str());
        if let Some(url) = &self.authorize_url {
            if url.as_str().unicode_len() > 0 {
                s.append("\n\nSpotify auth URL:\n");
                s.append(url.as_str());
            }
        }
        s.append("\n\nPress q, Esc, or Ctrl-C to quit.");
        s
    }
}

impl Default for AuthScreenState {
    /// State before the auth flow has started.
    fn default() -> (r: Self)
        ensures
            r.status@ == "Spotify auth not started"@,
            r.authorize_url is None,
            r.browser_open_error is None,
            r.frame.ticks == 0,
            r.frame.terminal_size is None,
    {
        AuthScreenState {
            frame: ScreenFrameState::default(),
            status: owned("Spotify auth not started"),
            authorize_url: None,
            browser_open_error: None,
        }
    }
}

/// A failed browser launch stays on record, with the URL to copy, until the
/// flow moves past waiting for the callback; `Failed` keeps the URL on screen
/// but drops the browser failure.
pub proof fn law_manual_copy_prompt_survives_waiting(
    url: Option<String>,
    error: Option<String>,
    event: AuthEvent,
)
    requires
        event is WaitingForCallback || event is ExchangingCode,
    ensures
        url_after(event, url) == url,
        browser_error_after(event, error) == error,
{
}

/// Once the session is usable (cached, refreshed or completed), neither a URL
/// nor a browser failure is left on screen.
pub proof fn law_usable_session_clears_prompt(
    url: Option<String>,
    error: Option<String>,
    event: AuthEvent,
)
    requires
        event is Cached || event is RefreshedCachedToken || event is Completed,
    ensures
        url_after(event, url) is None,
        browser_error_after(event, error) is None,
{
}

} // verus!
