//! Checks of the Spotify service layer that need no network: empty response
//! bodies and the verdict on a refreshed token.

use vstd::prelude::*;
use vstd::string::StringSliceAdditionalSpecFns;

use crate::text::{decimal, is_blank_text, owned, text_is_blank};

use super::error::SpotifyServiceError;

verus! {

/// Validates that a Spotify endpoint response body is empty.
pub fn decode_empty_response(response: &str) -> (r: Result<(), SpotifyServiceError>)
    requires
        response.spec_bytes().len() <= usize::MAX,
    ensures
        r is Ok <==> is_blank_text(response@),
        r matches Err(e) ==> (e matches SpotifyServiceError::Decode(m) && m@
            == "Spotify response was expected to be empty but returned "@ + decimal(
            response.spec_bytes().len(),
        ) + " bytes"@),
{
    if text_is_blank(response) {
        Ok(())
    } else {
        Err(SpotifyServiceError::unexpected_body(response))
    }
}

/// The verdict on a token refresh that Spotify accepted: it is done when the
/// client now holds an unexpired access token, and calls for reauthorization
/// otherwise.
pub fn usable_token_verdict(usable: bool) -> (r: Result<(), SpotifyServiceError>)
    ensures
        r is Ok <==> usable,
        r matches Err(e) ==> (e matches SpotifyServiceError::ReauthorizationRequired(m) && m@
            == "Spotify token refresh did not return a usable access token; reauthorization required"@),
{
    if usable {
        Ok(())
    } else {
        Err(
            SpotifyServiceError::ReauthorizationRequired(
                owned(
                    "Spotify token refresh did not return a usable access token; reauthorization required",
                ),
            ),
        )
    }
}

} // verus!
