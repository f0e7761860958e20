//! Spotify PKCE authentication: the decisions of the flow, the redirect and
//! callback validation, and the session that holds the Spotify client.
//!
//! The background worker, the socket listener and the browser launch live in
//! the application shell, which hands each result to the functions here.

/// Local HTTP callback request handling for Spotify redirects.
pub mod callback;
/// Errors surfaced by the authentication pipeline.
pub mod error;
/// Worker status events consumed by the UI.
pub mod event;
/// The order of events in browser authorization.
pub mod flow;
/// The Spotify PKCE client and the settings it was built from.
pub mod pkce;
/// Redirect URI parsing and callback URL validation helpers.
pub mod redirect;
/// Auth session construction and the decisions around cached tokens.
pub mod session;

pub use event::AuthEvent;

use vstd::prelude::*;

use error::{auth_error_text, AuthError};

verus! {

/// The event that ends a worker run which failed with `err`.
pub fn failure_event(err: &AuthError) -> (r: AuthEvent)
    ensures
        r matches AuthEvent::Failed { message } && message@ == auth_error_text(*err),
{
    AuthEvent::Failed { message: err.to_string() }
}

} // verus!
