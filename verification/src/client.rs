//! Spotify client failures, held as the plain values that the auth and service
//! layers decide on.
//!
//! The application shell turns each `rspotify::ClientError` into a
//! [`ClientFailure`]: reading an error response's body is network I/O, so it
//! happens there.

use vstd::prelude::*;

use crate::text::{decimal, decimal_text, is_blank_text, join2, text_is_blank};

verus! {

/// What kind of failure a Spotify client call ended in.
#[derive(Debug, Clone, PartialEq, Eq)]
pub enum ClientFailureKind {
    /// The client holds no usable access token.
    InvalidToken,
    /// Spotify answered with an error status.
    Status {
        /// The HTTP status code.
        status: u16,
        /// The response body as far as it could be read.
        body: ResponseBody,
    },
    /// The HTTP transport failed; the text is the transport error's message.
    Transport(String),
    /// An I/O error below the HTTP layer; the text is the I/O error's message.
    Io(String),
    /// Any other client failure.
    Other,
}

/// The body of an error response.
#[derive(Debug, Clone, PartialEq, Eq)]
pub enum ResponseBody {
    /// The body text.
    Text(String),
    /// Reading the body failed; the text is the read error's message.
    Unreadable(String),
}

/// A Spotify client failure: its kind and the client error's own message.
#[derive(Debug, Clone, PartialEq, Eq)]
pub struct ClientFailure {
    /// What kind of failure it was.
    pub kind: ClientFailureKind,
    /// The message of the client error as a whole.
    pub display: String,
}

/// The compact message for a failure, where `lead` names what answered with
/// an error status (as in `"Spotify API returned HTTP "`).
pub open spec fn failure_message(lead: Seq<char>, failure: ClientFailure) -> Seq<char> {
    match failure.kind {
        ClientFailureKind::Status { status, body } => match body {
            ResponseBody::Text(text) => if is_blank_text(text@) {
                lead + decimal(status as nat)
            } else {
                lead + decimal(status as nat) + ": "@ + text@
            },
            ResponseBody::Unreadable(e) => lead + decimal(status as nat) + "; could not read response body: "@ + e@,
        },
        ClientFailureKind::Transport(text) => text@,
        ClientFailureKind::Io(text) => text@,
        ClientFailureKind::InvalidToken => failure.display@,
        ClientFailureKind::Other => failure.display@,
    }
}

/// The HTTP status a failure carries, when it is an error response.
pub open spec fn failure_status(failure: ClientFailure) -> Option<u16> {
    match failure.kind {
        ClientFailureKind::Status { status, .. } => Some(status),
        _ => None,
    }
}

impl ClientFailure {
    /// Builds the compact user-facing message for this failure.
    pub fn message_with_lead(&self, lead: &str) -> (r: String)
        ensures
            r@ == failure_message(lead@, *self),
    {
        match &self.kind {
            ClientFailureKind::Status { status, body } => {
                let code = decimal_text(*status as u64);
                let mut s = join2(lead, code.as_str());
                match body {
                    ResponseBody::Text(text) => {
                        if !text_is_blank(text.as_str()) {
                            s.append(": ");
                            s.append(text.as_str());
                        }
                    },
                    ResponseBody::Unreadable(e) => {
                        s.append("; could not read response body: ");
                        s.append(e.as_str());
                    },
                }
                s
            },
            ClientFailureKind::Transport(text) => text.clone(),
            ClientFailureKind::Io(text) => text.clone(),
            ClientFailureKind::InvalidToken => self.display.clone(),
            ClientFailureKind::Other => self.display.clone(),
        }
    }

    /// The HTTP status of an error response, if this failure is one.
    pub fn status(&self) -> (r: Option<u16>)
        ensures
            r == failure_status(*self),
    {
        match &self.kind {
            ClientFailureKind::Status { status, .. } => Some(*status),
            _ => None,
        }
    }
}

} // verus!
