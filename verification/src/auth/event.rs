//! Status updates emitted while the Spotify auth flow runs.

use vstd::prelude::*;

verus! {

/// Status updates emitted while the Spotify auth flow runs.
#[derive(Debug, Clone, PartialEq, Eq)]
pub enum AuthEvent {
    /// Auth flow startup began.
    Starting,
    /// A valid cached token was found and can be reused.
    Cached { cache_path: String },
    /// An expired cached token is being refreshed.
    RefreshingCachedToken { cache_path: String },
    /// An expired cached token was refreshed and can be reused.
    RefreshedCachedToken { cache_path: String },
    /// Cached credentials cannot be reused and browser reauthorization is required.
    ReauthorizationRequired { message: String },
    /// A browser authorization URL was generated.
    AuthorizationUrl {
        /// URL the user must visit to authorize the app.
        url: String,
        /// Local callback endpoint currently waiting for Spotify.
        callback_addr: String,
    },
    /// Browser launch failed, but the URL can still be copied manually.
    BrowserOpenFailed { message: String },
    /// The callback listener is waiting for Spotify to redirect back.
    WaitingForCallback { callback_addr: String },
    /// The callback code was received and is being exchanged for tokens.
    ExchangingCode,
    /// Tokens were received and persisted.
    Completed { cache_path: String },
    /// Auth cannot continue.
    Failed { message: String },
}

/// The events after which the auth worker sends nothing more.
pub open spec fn is_terminal_event(event: AuthEvent) -> bool {
    ||| event is Cached
    ||| event is RefreshedCachedToken
    ||| event is Completed
    ||| event is Failed
}

impl AuthEvent {
    /// Returns true when no more auth worker events are expected.
    pub fn is_terminal(&self) -> (r: bool)
        ensures
            r == is_terminal_event(*self),
    {
        match self {
            AuthEvent::Cached { .. } => true,
            AuthEvent::RefreshedCachedToken { .. } => true,
            AuthEvent::Completed { .. } => true,
            AuthEvent::Failed { .. } => true,
            _ => false,
        }
    }
}

} // verus!
