//! Errors produced by the Spotify auth flow.

use vstd::prelude::*;

use crate::client::{failure_message, ClientFailure};
use crate::text::{join2, owned};

verus! {

/// Errors produced by the Spotify auth flow.
#[derive(Debug, Clone, PartialEq, Eq)]
pub enum AuthError {
    /// Required app configuration is missing.
    MissingConfig(&'static str),
    /// XDG could not resolve the token cache path.
    TokenCachePathUnavailable,
    /// The configured redirect URI cannot be used by the local callback listener.
    InvalidRedirectUri(String),
    /// The browser callback request was missing or malformed.
    InvalidCallback(String),
    /// Spotify redirected back with an OAuth error instead of an auth code.
    AuthorizationRejected {
        /// OAuth error identifier returned by Spotify.
        error: String,
        /// Optional OAuth error description returned by Spotify.
        description: Option<String>,
    },
    /// Filesystem or socket IO failed.
    Io(String),
    /// Spotify client authorization failed.
    Spotify(String),
}

/// The user-facing text of an auth error.
pub open spec fn auth_error_text(err: AuthError) -> Seq<char> {
    match err {
        AuthError::MissingConfig(field) => "missing required config: "@ + field@,
        AuthError::TokenCachePathUnavailable => "could not resolve token cache path"@,
        AuthError::InvalidRedirectUri(m) => "invalid redirect URI: "@ + m@,
        AuthError::InvalidCallback(m) => "invalid callback: "@ + m@,
        AuthError::AuthorizationRejected { error, description } => match description {
            Some(d) => "Spotify authorization returned "@ + error@ + ": "@ + d@,
            None => "Spotify authorization returned "@ + error@,
        },
        AuthError::Io(m) => "auth IO failed: "@ + m@,
        AuthError::Spotify(m) => "Spotify auth failed: "@ + m@,
    }
}

/// The message for a failed token-endpoint call.
pub open spec fn token_endpoint_message(failure: ClientFailure) -> Seq<char> {
    failure_message("Spotify token endpoint returned HTTP "@, failure)
}

impl AuthError {
    /// The user-facing text of the error.
    pub fn to_string(&self) -> (r: String)
        ensures
            r@ == auth_error_text(*self),
    {
        match self {
            AuthError::MissingConfig(field) => join2("missing required config: ", field),
            AuthError::TokenCachePathUnavailable => owned("could not resolve token cache path"),
            AuthError::InvalidRedirectUri(m) => join2("invalid redirect URI: ", m.as_str()),
            AuthError::InvalidCallback(m) => join2("invalid callback: ", m.as_str()),
            AuthError::AuthorizationRejected { error, description } => {
                let mut s = join2("Spotify authorization returned ", error.as_str());
                if let Some(d) = description {
                    s.append(": ");
                    s.append(d.as_str());
                }
                s
            },
            AuthError::Io(m) => join2("auth IO failed: ", m.as_str()),
            AuthError::Spotify(m) => join2("Spotify auth failed: ", m.as_str()),
        }
    }
}

/// Converts a Spotify client failure into a compact, user-facing message.
pub fn spotify_client_error_message(failure: &ClientFailure) -> (r: String)
    ensures
        r@ == token_endpoint_message(*failure),
{
    failure.message_with_lead("Spotify token endpoint returned HTTP ")
}

} // verus!
