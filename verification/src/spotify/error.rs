//! Errors produced by the Spotify service layer.

use vstd::prelude::*;
use vstd::string::StringSliceAdditionalSpecFns;

use crate::client::{failure_message, failure_status, ClientFailure, ClientFailureKind};
use crate::text::{decimal, decimal_text, join2, join3, owned};

use super::retry::{
    client_error_status, is_auth_expired, is_auth_expired_error, is_transient_status,
    is_transient_status_spec, is_transient_transport, is_transient_transport_error,
    spotify_client_error_message,
};

verus! {

/// Errors produced by the Spotify service layer.
#[derive(Debug, Clone, PartialEq, Eq)]
pub enum SpotifyServiceError {
    /// Spotify credentials cannot be refreshed automatically.
    ReauthorizationRequired(String),
    /// Spotify rate limited the request after retries were exhausted.
    RateLimited(String),
    /// Spotify or the network returned a transient failure after retries were exhausted.
    Transient(String),
    /// Spotify returned a non-auth, non-transient client error.
    Spotify(String),
    /// Spotify returned a response body that could not be decoded for the requested type.
    Decode(String),
}

/// The message an error carries, which is also its user-facing text.
pub open spec fn service_error_text(err: SpotifyServiceError) -> Seq<char> {
    match err {
        SpotifyServiceError::ReauthorizationRequired(m) => m@,
        SpotifyServiceError::RateLimited(m) => m@,
        SpotifyServiceError::Transient(m) => m@,
        SpotifyServiceError::Spotify(m) => m@,
        SpotifyServiceError::Decode(m) => m@,
    }
}

/// `r` is the error for an HTTP `status` with `message`: rate limits, other
/// transient statuses, and everything else are kept apart.
pub open spec fn status_error(r: SpotifyServiceError, status: u16, message: Seq<char>) -> bool {
    if status == 429 {
        r matches SpotifyServiceError::RateLimited(m) && m@ == message
    } else if is_transient_status_spec(status) {
        r matches SpotifyServiceError::Transient(m) && m@ == message
    } else {
        r matches SpotifyServiceError::Spotify(m) && m@ == message
    }
}

/// The message for Spotify API failures.
pub open spec fn api_message(failure: ClientFailure) -> Seq<char> {
    failure_message("Spotify API returned HTTP "@, failure)
}

/// `r` is the service error that a client failure is classified as.
pub open spec fn classified(r: SpotifyServiceError, failure: ClientFailure) -> bool {
    if is_auth_expired(failure) {
        r matches SpotifyServiceError::ReauthorizationRequired(m) && m@
            == "Spotify credentials are invalid or expired; reauthorization required"@
    } else if failure_status(failure) is Some {
        status_error(r, failure_status(failure)->0, api_message(failure))
    } else if is_transient_transport(failure) {
        r matches SpotifyServiceError::Transient(m) && m@ == api_message(failure)
    } else {
        r matches SpotifyServiceError::Spotify(m) && m@ == api_message(failure)
    }
}

impl SpotifyServiceError {
    /// Classifies a Spotify client failure into service-level categories.
    pub fn from_client_error(failure: &ClientFailure) -> (r: Self)
        ensures
            classified(r, *failure),
            failure.kind matches ClientFailureKind::Status { status, .. } ==> ((status == 500
                || status == 502 || status == 503 || status == 504) ==> r is Transient),
    {
        if is_auth_expired_error(failure) {
            SpotifyServiceError::ReauthorizationRequired(
                owned("Spotify credentials are invalid or expired; reauthorization required"),
            )
        } else if let Some(status) = client_error_status(failure) {
            let message = spotify_client_error_message(failure);
            SpotifyServiceError::from_status(status, message)
        } else if is_transient_transport_error(failure) {
            SpotifyServiceError::Transient(spotify_client_error_message(failure))
        } else {
            SpotifyServiceError::Spotify(spotify_client_error_message(failure))
        }
    }

    /// Maps token refresh failures to reauthorization-required errors.
    pub fn refresh_failed(failure: &ClientFailure) -> (r: Self)
        ensures
            r matches SpotifyServiceError::ReauthorizationRequired(m) && m@
                == "Spotify token refresh failed ("@ + failure.display@
                + "); reauthorization required"@,
    {
        SpotifyServiceError::ReauthorizationRequired(
            join3(
                "Spotify token refresh failed (",
                failure.display.as_str(),
                "); reauthorization required",
            ),
        )
    }

    /// Maps JSON decode failures from Spotify responses; `detail` is the
    /// decoder's message.
    pub fn decode_failed(detail: &str) -> (r: Self)
        ensures
            r matches SpotifyServiceError::Decode(m) && m@ == "Spotify response JSON decode failed: "@
                + detail@,
    {
        SpotifyServiceError::Decode(join2("Spotify response JSON decode failed: ", detail))
    }

    /// Builds a decode error for endpoints expected to return an empty body.
    pub fn unexpected_body(body: &str) -> (r: Self)
        requires
            body.spec_bytes().len() <= usize::MAX,
        ensures
            r matches SpotifyServiceError::Decode(m) && m@
                == "Spotify response was expected to be empty but returned "@ + decimal(
                body.spec_bytes().len(),
            ) + " bytes"@,
    {
        let size = decimal_text(body.len() as u64);
        let mut s = join2("Spotify response was expected to be empty but returned ", size.as_str());
        s.append(" bytes");
        SpotifyServiceError::Decode(s)
    }

    /// Maps HTTP status + message into the most specific service error variant.
    pub fn from_status(status: u16, message: String) -> (r: Self)
        ensures
            status_error(r, status, message@),
            (status == 500 || status == 502 || status == 503 || status == 504) ==> r is Transient,
            status == 429 ==> r is RateLimited,
    {
        if status == 429 {
            SpotifyServiceError::RateLimited(message)
        } else if is_transient_status(status) {
            SpotifyServiceError::Transient(message)
        } else {
            SpotifyServiceError::Spotify(message)
        }
    }

    /// The error reported when the service's token lock is poisoned.
    pub fn token_lock_poisoned() -> (r: Self)
        ensures
            r matches SpotifyServiceError::Spotify(m) && m@ == "Spotify token lock was poisoned"@,
    {
        SpotifyServiceError::Spotify(owned("Spotify token lock was poisoned"))
    }

    /// The user-facing text of the error: its message.
    pub fn to_string(&self) -> (r: String)
        ensures
            r@ == service_error_text(*self),
    {
        match self {
            SpotifyServiceError::ReauthorizationRequired(m) => m.clone(),
            SpotifyServiceError::RateLimited(m) => m.clone(),
            SpotifyServiceError::Transient(m) => m.clone(),
            SpotifyServiceError::Spotify(m) => m.clone(),
            SpotifyServiceError::Decode(m) => m.clone(),
        }
    }
}

/// Rate limits are transient, yet an exhausted rate limit is reported apart
/// from other transient statuses.
pub proof fn law_rate_limits_stay_distinct(r: SpotifyServiceError, message: Seq<char>)
    requires
        status_error(r, 429, message),
    ensures
        is_transient_status_spec(429),
        r is RateLimited,
        !(r is Transient),
{
}

/// Server failures (500, 502, 503, 504) are transient, a rate limit (429) is
/// reported as such, and every other status is a plain Spotify error; the
/// message is kept as given.
pub proof fn law_status_classes(r: SpotifyServiceError, status: u16, message: Seq<char>)
    requires
        status_error(r, status, message),
    ensures
        (status == 500 || status == 502 || status == 503 || status == 504) ==> (r matches SpotifyServiceError::Transient(m) && m@ == message),
        status == 429 ==> (r matches SpotifyServiceError::RateLimited(m) && m@ == message),
        !(status == 429 || status == 500 || status == 502 || status == 503 || status == 504) ==> (r matches SpotifyServiceError::Spotify(m) && m@ == message),
{
}

/// A client failure that is an HTTP server failure (500, 502, 503, 504) is
/// classified as transient, with the compact API message.
pub proof fn law_server_failures_are_transient(r: SpotifyServiceError, failure: ClientFailure)
    requires
        classified(r, failure),
        failure.kind matches ClientFailureKind::Status { status, .. } && (status
            == 500 || status == 502 || status == 503 || status == 504),
    ensures
        r matches SpotifyServiceError::Transient(m) && m@ == api_message(failure),
{
}

} // verus!
