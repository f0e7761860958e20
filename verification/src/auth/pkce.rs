//! The rspotify PKCE client of the auth session, kept together with the
//! settings it was built from.

use vstd::prelude::*;

use rspotify::prelude::OAuthClient;

use crate::urls::{form_pairs, last_value, query_or_empty, url_parse};

verus! {

#[verifier::external_type_specification]
#[verifier::external_body]
pub struct ExAuthCodePkceSpotify(rspotify::AuthCodePkceSpotify);

#[verifier::external_type_specification]
#[verifier::external_body]
pub struct ExClientError(rspotify::ClientError);

/// The settings a PKCE client is built from, as plain values.
#[derive(Debug, Clone, PartialEq, Eq)]
pub struct ClientSettings {
    /// The Spotify application's client ID.
    pub client_id: String,
    /// The redirect URI registered for the application.
    pub redirect_uri: String,
    /// The OAuth scopes asked for.
    pub scopes: Vec<String>,
    /// Where the client caches its token.
    pub cache_path: String,
    /// Whether the client writes its token to the cache.
    pub token_cached: bool,
    /// Whether the client refreshes an expired token by itself.
    pub token_refreshing: bool,
}

/// An rspotify PKCE client, the settings it was built from, and the OAuth
/// state it drew when it was built.
///
/// Only [`pkce_client`] builds one, always with rspotify's default `Config`,
/// so its authorization endpoint is rspotify's `DEFAULT_AUTH_BASE_URL`
/// (`https://accounts.spotify.com/`).
#[derive(Debug)]
pub struct PkceClient {
    client: rspotify::AuthCodePkceSpotify,
    settings: ClientSettings,
    state: String,
}

impl PkceClient {
    /// The settings the client was built from.
    pub closed spec fn settings(&self) -> ClientSettings {
        self.settings
    }

    /// The OAuth state the client drew when it was built.
    pub closed spec fn oauth_state(&self) -> Seq<char> {
        self.state@
    }

    /// The rspotify client.
    pub closed spec fn inner(&self) -> rspotify::AuthCodePkceSpotify {
        self.client
    }

    /// The rspotify client.
    pub fn client(&self) -> (r: &rspotify::AuthCodePkceSpotify)
        ensures
            *r == self.inner(),
    {
        &self.client
    }

    /// The settings the client was built from.
    pub fn client_settings(&self) -> (r: &ClientSettings)
        ensures
            *r == self.settings(),
    {
        &self.settings
    }
}

/// Words joined with single spaces, as `[..].join(" ")` joins them.
pub open spec fn spaced(words: Seq<Seq<char>>) -> Seq<char>
    decreases words.len(),
{
    if words.len() == 0 {
        Seq::empty()
    } else if words.len() == 1 {
        words[0]
    } else {
        words[0] + " "@ + spaced(words.drop_first())
    }
}

/// `url` is an authorization URL for a client with `settings` and OAuth
/// `state`: it parses as `https://accounts.spotify.com/authorize`, and its
/// query carries the client ID, `response_type=code`, the redirect URI,
/// `code_challenge_method=S256`, the state, and the scopes joined with spaces
/// in some order.
pub open spec fn authorize_url_for(url: Seq<char>, settings: ClientSettings, state: Seq<char>) -> bool {
    url_parse(url) matches Ok(u) && {
        let pairs = form_pairs(query_or_empty(u));
        &&& u.scheme == "https"@
        &&& u.host == Some("accounts.spotify.com"@)
        &&& u.path == "/authorize"@
        &&& last_value(pairs, "client_id"@) == Some(settings.client_id@)
        &&& last_value(pairs, "response_type"@) == Some("code"@)
        &&& last_value(pairs, "redirect_uri"@) == Some(settings.redirect_uri@)
        &&& last_value(pairs, "code_challenge_method"@) == Some("S256"@)
        &&& last_value(pairs, "state"@) == Some(state)
        &&& last_value(pairs, "scope"@) matches Some(scope) && exists|words: Seq<Seq<char>>|
            {
                &&& words.no_duplicates()
                &&& words.to_set() == settings.scopes@.map_values(|s: String| s@).to_set()
                &&& #[trigger] spaced(words) == scope
            }
    }
}

/// The code a client with OAuth `state` takes from a callback URL: the last
/// `code` value of the query, when the last `state` value equals `state`.
pub open spec fn response_code(url: Seq<char>, state: Seq<char>) -> Option<Seq<char>> {
    match url_parse(url) {
        Err(_) => None,
        Ok(u) => {
            let pairs = form_pairs(query_or_empty(u));
            if last_value(pairs, "state"@) == Some(state) {
                last_value(pairs, "code"@)
            } else {
                None
            }
        },
    }
}

/// Builds the client with `rspotify::AuthCodePkceSpotify::with_config`, from
/// `Credentials::new_pkce(client_id)`, an `OAuth` with the redirect URI and the
/// scopes (its other fields default; the `state` among them is drawn at random)
/// and a `Config` with the cache path and the two token flags (its other fields
/// default). The claim is that the settings kept beside the client are the
/// ones it was built from; the drawn state is copied out of the client's
/// `OAuth`, and nothing is claimed of its value.
#[verifier::external_body]
pub(crate) fn pkce_client(settings: ClientSettings) -> (r: PkceClient)
    ensures
        r.settings() == settings,
{
    let credentials = rspotify::Credentials::new_pkce(&settings.client_id);
    let scopes = settings.scopes.iter().cloned().collect();
    let oauth = rspotify::OAuth { redirect_uri: settings.redirect_uri.clone(), scopes, ..Default::default() };
    let config = rspotify::Config {
        cache_path: std::path::PathBuf::from(&settings.cache_path),
        token_cached: settings.token_cached,
        token_refreshing: settings.token_refreshing,
        ..Default::default()
    };
    let client = rspotify::AuthCodePkceSpotify::with_config(credentials, oauth, config);
    let state = client.oauth.state.clone();
    PkceClient { client, settings, state }
}

/// Calls `AuthCodePkceSpotify::get_authorize_url`, which draws a fresh random
/// PKCE verifier of `verifier_bytes` characters (43 when `None`), keeps it in
/// the client, and builds the URL with `Url::parse_with_params` from the
/// default authorization endpoint and a map of the client ID,
/// `response_type=code`, the redirect URI, the code challenge,
/// `code_challenge_method=S256`, the OAuth state and the scopes (from a
/// `HashSet`, joined with spaces in no fixed order). The endpoint parses, so
/// the call succeeds. rspotify asserts in debug builds that the verifier length
/// lies in 43..=128, hence the precondition. The code challenge is random and
/// is not claimed.
#[verifier::external_body]
pub(crate) fn client_authorize_url(client: &mut PkceClient, verifier_bytes: Option<usize>) -> (r:
    Result<String, rspotify::ClientError>)
    requires
        verifier_bytes matches Some(n) ==> 43 <= n <= 128,
    ensures
        final(client).settings() == old(client).settings(),
        final(client).oauth_state() == old(client).oauth_state(),
        r matches Ok(url) && authorize_url_for(url@, old(client).settings(), old(client).oauth_state()),
{
    client.client.get_authorize_url(verifier_bytes)
}

/// Calls `OAuthClient::parse_response_code`: it parses the callback URL (no
/// code when it does not parse), reads its query into a map (so the last
/// `code` and `state` values count), and returns the `code` when there is one
/// and the `state` equals the client's OAuth state.
#[verifier::external_body]
pub(crate) fn client_response_code(client: &PkceClient, url: &str) -> (r: Option<String>)
    ensures
        crate::text::opt_view(r) == response_code(url@, client.oauth_state()),
{
    client.client.parse_response_code(url)
}

} // verus!
