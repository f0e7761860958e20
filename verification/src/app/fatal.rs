//! Fatal error model and its source in failed auth runs.

use vstd::prelude::*;

use crate::auth::AuthEvent;
use crate::text::owned;

verus! {

/// User-facing description of an unrecoverable error.
#[derive(Debug, Clone, PartialEq, Eq)]
pub struct FatalError {
    /// Short subsystem label shown as the headline (e.g. "Spotify auth").
    pub source: &'static str,
    /// One-line summary of what failed.
    pub message: String,
    /// Optional next steps for the user.
    pub details: Option<String>,
}

/// The next steps shown with a fatal auth failure.
pub open spec fn auth_failure_details() -> Seq<char> {
    "Verify your Spotify client ID and redirect URI in the app config, then restart spotuify."@
}

impl FatalError {
    /// Creates a fatal error with a subsystem label and message.
    pub fn new(source: &'static str, message: &str) -> (r: Self)
        ensures
            r.source == source,
            r.message@ == message@,
            r.details is None,
    {
        FatalError { source, message: owned(message), details: None }
    }

    /// Adds optional next-step details to the fatal error.
    pub fn with_details(self, details: &str) -> (r: Self)
        ensures
            r.source == self.source,
            r.message == self.message,
            r.details matches Some(d) && d@ == details@,
    {
        FatalError { source: self.source, message: self.message, details: Some(owned(details)) }
    }
}

/// Returns a fatal-error description for any auth event that ends the flow unrecoverably.
pub fn fatal_from_auth_event(event: &AuthEvent) -> (r: Option<FatalError>)
    ensures
        r is Some <==> event is Failed,
        r matches Some(f) ==> {
            &&& f.source@ == "Spotify auth"@
            &&& f.message@ == event->Failed_message@
            &&& f.details matches Some(d) && d@ == auth_failure_details()
        },
{
    match event {
        AuthEvent::Failed { message } => Some(
            FatalError::new("Spotify auth", message.as_str()).with_details(
                "Verify your Spotify client ID and redirect URI in the app config, then restart spotuify.",
            ),
        ),
        _ => None,
    }
}

} // verus!
