//! Spotify authorization session: building it from config, and the decisions
//! the flow takes around cached tokens, refreshes and the code exchange.
//!
//! The steps that touch the token cache file, the network and the browser run
//! in the application shell; each hands what it got to a function here, which
//! says what event to report and how the flow goes on.

use vstd::prelude::*;

use crate::client::ClientFailure;
use crate::config::{app_config_file_path, is_blank, is_blank_value, opt_str, AppConfig};
use crate::text::{join3, owned};

use super::callback::{
    authorization_error_from_callback_url, browser_failure_body, failure_body_text,
    rejection_in, CALLBACK_RESPONSE_SUCCESS, HTTP_RESPONSE_BAD_REQUEST, HTTP_RESPONSE_OK,
};
use super::error::{spotify_client_error_message, token_endpoint_message, AuthError};
use super::event::AuthEvent;
use super::pkce::{
    authorize_url_for, client_authorize_url, client_response_code, pkce_client, response_code,
    ClientSettings, PkceClient,
};
use super::redirect::{callback_url_for, redirect_from_uri, LocalRedirect};

verus! {

/// File name used for Spotify token cache persistence under the XDG config dir.
pub const TOKEN_CACHE_FILE_NAME: &'static str = "spotify_token_cache.json";

/// Spotify authorization session state.
#[derive(Debug)]
pub struct AuthSession {
    /// Spotify client configured for PKCE auth and token caching, with the
    /// settings it was built from.
    client: PkceClient,
    /// Validated local redirect settings used by the callback listener.
    redirect: LocalRedirect,
    /// Path where cached Spotify tokens are persisted.
    cache_path: String,
}

/// The OAuth scopes the session asks for.
pub open spec fn required_scope_names() -> Seq<Seq<char>> {
    seq![
        "user-read-private"@,
        "user-read-playback-state"@,
        "user-read-currently-playing"@,
        "user-modify-playback-state"@,
        "user-library-read"@,
        "playlist-read-private"@,
        "playlist-read-collaborative"@,
    ]
}

/// The OAuth scopes the session asks for.
pub fn required_scopes() -> (r: Vec<String>)
    ensures
        r@.map_values(|s: String| s@) == required_scope_names(),
{
    let mut v = Vec::new();
    v.push(owned("user-read-private"));
    v.push(owned("user-read-playback-state"));
    v.push(owned("user-read-currently-playing"));
    v.push(owned("user-modify-playback-state"));
    v.push(owned("user-library-read"));
    v.push(owned("playlist-read-private"));
    v.push(owned("playlist-read-collaborative"));
    assert(v@.map_values(|s: String| s@) =~= required_scope_names());
    v
}

/// The client is built from the configured client ID and redirect URI, the
/// required scopes and the token cache path, with token caching and
/// refreshing on.
pub open spec fn session_client_built(settings: ClientSettings, config: AppConfig, cache_path: String) -> bool {
    &&& settings.client_id@ == config.spotify.client_id->0@
    &&& settings.redirect_uri@ == config.spotify.redirect_uri->0@
    &&& settings.scopes@.map_values(|s: String| s@) == required_scope_names()
    &&& settings.cache_path@ == cache_path@
    &&& settings.token_cached
    &&& settings.token_refreshing
}

/// `r` is the session, or the error, that a config leads to once the token
/// cache path is known (`None` when it could not be resolved).
pub open spec fn session_result(
    r: Result<AuthSession, AuthError>,
    config: AppConfig,
    cache_path: Option<String>,
) -> bool {
    if is_blank_value(config.spotify.client_id) {
        r matches Err(AuthError::MissingConfig(f)) && f@ == "spotify.client_id"@
    } else if is_blank_value(config.spotify.redirect_uri) {
        r matches Err(AuthError::MissingConfig(f)) && f@ == "spotify.redirect_uri"@
    } else {
        match cache_path {
            None => r matches Err(AuthError::TokenCachePathUnavailable),
            Some(path) => match redirect_from_uri(config.spotify.redirect_uri->0@) {
                Err(m) => r matches Err(AuthError::InvalidRedirectUri(s)) && s@ == m,
                Ok(v) => r matches Ok(session) && session.redirect()@ == v
                    && session.cache_path()@ == path@ && session_client_built(
                    session.client_settings(),
                    config,
                    path,
                ),
            },
        }
    }
}

impl AuthSession {
    /// The validated redirect.
    pub closed spec fn redirect(&self) -> LocalRedirect {
        self.redirect
    }

    /// The token cache path.
    pub closed spec fn cache_path(&self) -> String {
        self.cache_path
    }

    /// Creates an auth session from validated app config, with the token cache
    /// under the XDG config directory.
    ///
    /// The cache path depends on the environment; the session or error for
    /// each possible path is what [`AuthSession::from_config_with_cache_path`]
    /// states.
    pub fn from_config(config: &AppConfig) -> (r: Result<Self, AuthError>)
        ensures
            is_blank_value(config.spotify.client_id) ==> (r matches Err(
                AuthError::MissingConfig(f),
            ) && f@ == "spotify.client_id"@),
            !is_blank_value(config.spotify.client_id) && is_blank_value(
                config.spotify.redirect_uri,
            ) ==> (r matches Err(AuthError::MissingConfig(f)) && f@ == "spotify.redirect_uri"@),
            exists|path: Option<String>| #[trigger] session_result(r, *config, path),
            r matches Ok(session) ==> "/spotuify/spotify_token_cache.json"@.is_suffix_of(
                session.cache_path()@,
            ),
    {
        if is_blank(opt_str(&config.spotify.client_id)) {
            let r = Err(AuthError::MissingConfig("spotify.client_id"));
            assert(session_result(r, *config, None));
            return r;
        }
        if is_blank(opt_str(&config.spotify.redirect_uri)) {
            let r = Err(AuthError::MissingConfig("spotify.redirect_uri"));
            assert(session_result(r, *config, None));
            return r;
        }
        let cache_path = app_config_file_path(TOKEN_CACHE_FILE_NAME);
        proof {
            reveal_strlit("spotify_token_cache.json");
            reveal_strlit("/spotuify/");
            reveal_strlit("/spotuify/spotify_token_cache.json");
            assert(!TOKEN_CACHE_FILE_NAME@.contains('/')) by {
                assert(forall|i: int|
                    0 <= i < TOKEN_CACHE_FILE_NAME@.len() ==> TOKEN_CACHE_FILE_NAME@[i] != '/');
            }
            assert("/spotuify/"@ + TOKEN_CACHE_FILE_NAME@ =~= "/spotuify/spotify_token_cache.json"@);
        }
        let ghost path = cache_path;
        let r = AuthSession::from_config_with_cache_path(config, cache_path);
        assert(session_result(r, *config, path));
        r
    }

    /// Creates an auth session from app config and the resolved token cache
    /// path (`None` when it could not be resolved).
    pub fn from_config_with_cache_path(config: &AppConfig, cache_path: Option<String>) -> (r:
        Result<Self, AuthError>)
        ensures
            session_result(r, *config, cache_path),
    {
        let client_id = match opt_str(&config.spotify.client_id) {
            Some(id) if !is_blank(Some(id)) => id,
            _ => return Err(AuthError::MissingConfig("spotify.client_id")),
        };
        let redirect_uri = match opt_str(&config.spotify.redirect_uri) {
            Some(uri) if !is_blank(Some(uri)) => uri,
            _ => return Err(AuthError::MissingConfig("spotify.redirect_uri")),
        };
        let cache_path = match cache_path {
            Some(p) => p,
            None => return Err(AuthError::TokenCachePathUnavailable),
        };
        let redirect = LocalRedirect::from_uri(redirect_uri)?;
        let scopes = required_scopes();
        let settings = ClientSettings {
            client_id: owned(client_id),
            redirect_uri: owned(redirect_uri),
            scopes,
            cache_path: cache_path.clone(),
            token_cached: true,
            token_refreshing: true,
        };
        let client = pkce_client(settings);
        Ok(AuthSession { client, redirect, cache_path })
    }

    /// The Spotify client the session holds.
    pub closed spec fn spotify_client(&self) -> rspotify::AuthCodePkceSpotify {
        self.client.inner()
    }

    /// The OAuth state the session's Spotify client drew when it was built.
    pub closed spec fn oauth_state(&self) -> Seq<char> {
        self.client.oauth_state()
    }

    /// The settings the session's Spotify client was built from.
    pub closed spec fn client_settings(&self) -> ClientSettings {
        self.client.settings()
    }

    /// The Spotify client.
    pub fn client(&self) -> (r: &rspotify::AuthCodePkceSpotify)
        ensures
            *r == self.spotify_client(),
    {
        self.client.client()
    }

    /// The settings the session's Spotify client was built from.
    pub fn settings(&self) -> (r: &ClientSettings)
        ensures
            *r == self.client_settings(),
    {
        self.client.client_settings()
    }

    /// The validated redirect.
    pub fn local_redirect(&self) -> (r: &LocalRedirect)
        ensures
            *r == self.redirect(),
    {
        &self.redirect
    }

    /// The token cache path.
    pub fn token_cache_path(&self) -> (r: &String)
        ensures
            *r == self.cache_path(),
    {
        &self.cache_path
    }

    /// Generates the Spotify authorization URL.
    pub fn authorize_url(&mut self) -> (r: Result<String, AuthError>)
        ensures
            r matches Ok(url) && authorize_url_for(
                url@,
                old(self).client_settings(),
                old(self).oauth_state(),
            ),
            final(self).redirect() == old(self).redirect(),
            final(self).cache_path() == old(self).cache_path(),
            final(self).client_settings() == old(self).client_settings(),
            final(self).oauth_state() == old(self).oauth_state(),
    {
        match client_authorize_url(&mut self.client, None) {
            Ok(url) => Ok(url),
            Err(err) => Err(AuthError::Spotify(err.to_string())),
        }
    }

    /// Checks a callback request target and extracts the authorization code.
    ///
    /// The target must name the redirect's callback URL; a callback that
    /// reports an OAuth error is refused with that error; otherwise the code
    /// comes from the client, which also checks the OAuth state.
    pub fn authorization_code(&self, request_target: &str) -> (r: Result<String, AuthError>)
        ensures
            match callback_url_for(self.redirect()@, request_target@) {
                Err(m) => r matches Err(AuthError::InvalidCallback(s)) && s@ == m,
                Ok(url) => match rejection_in(url) {
                    Some((e, d)) => r matches Err(
                        AuthError::AuthorizationRejected { error, description },
                    ) && error@ == e && crate::text::opt_view(description) == d,
                    None => match response_code(url, self.oauth_state()) {
                        Some(c) => r matches Ok(code) && code@ == c,
                        None => r matches Err(AuthError::InvalidCallback(s)) && s@
                            == "Spotify callback did not include a valid code and state"@,
                    },
                },
            },
    {
        let callback_url = self.redirect.callback_url_from_request_target(request_target)?;
        if let Some(err) = authorization_error_from_callback_url(callback_url.as_str()) {
            return Err(err);
        }
        match client_response_code(&self.client, callback_url.as_str()) {
            Some(code) => Ok(code),
            None => Err(
                AuthError::InvalidCallback(
                    owned("Spotify callback did not include a valid code and state"),
                ),
            ),
        }
    }
}

/// What reading the token cache came to.
#[derive(Debug, Clone, PartialEq, Eq)]
pub enum CachedTokenRead {
    /// There is no cache file.
    Absent,
    /// A token was read and has not expired.
    Valid,
    /// A token was read and has expired.
    Expired,
    /// A token was read but lacks required scopes.
    MissingScopes,
    /// The cache could not be read; the text is the error's message.
    Unreadable(String),
}

/// How the flow goes on after a cache check or a refresh.
#[derive(Debug, Clone, PartialEq, Eq)]
pub enum CacheStep {
    /// Nothing cached: authorize in the browser, with nothing to report.
    Authorize,
    /// Use the token: report the event, and the flow is done.
    Reuse(AuthEvent),
    /// Refresh the expired token: report the event, then refresh.
    Refresh(AuthEvent),
    /// Drop the token and authorize in the browser, after reporting the event.
    Reauthorize(AuthEvent),
}

/// What the refresh of an expired cached token came to.
#[derive(Debug, Clone, PartialEq, Eq)]
pub enum RefreshOutcome {
    /// Spotify accepted the refresh; `usable` says whether the client now
    /// holds an unexpired access token.
    Refreshed { usable: bool },
    /// The refresh failed.
    Failed(ClientFailure),
}

/// `r` is the step that a cache read leads to, for a cache at `cache_path`.
pub open spec fn cache_step_for(r: CacheStep, read: CachedTokenRead, cache_path: Seq<char>) -> bool {
    match read {
        CachedTokenRead::Absent => r is Authorize,
        CachedTokenRead::Valid => r matches CacheStep::Reuse(AuthEvent::Cached { cache_path: p })
            && p@ == cache_path,
        CachedTokenRead::Expired => r matches CacheStep::Refresh(
            AuthEvent::RefreshingCachedToken { cache_path: p },
        ) && p@ == cache_path,
        CachedTokenRead::MissingScopes => r matches CacheStep::Reauthorize(
            AuthEvent::ReauthorizationRequired { message },
        ) && message@
            == "Cached Spotify token is missing required scopes; reauthorization required"@,
        CachedTokenRead::Unreadable(e) => r matches CacheStep::Reauthorize(
            AuthEvent::ReauthorizationRequired { message },
        ) && message@ == "Cached Spotify token could not be read ("@ + e@
            + "); reauthorization required"@,
    }
}

/// `r` is the step that a refresh outcome leads to.
pub open spec fn refresh_step_for(r: CacheStep, outcome: RefreshOutcome, cache_path: Seq<char>) -> bool {
    match outcome {
        RefreshOutcome::Refreshed { usable } => if usable {
            r matches CacheStep::Reuse(AuthEvent::RefreshedCachedToken { cache_path: p })
                && p@ == cache_path
        } else {
            r matches CacheStep::Reauthorize(AuthEvent::ReauthorizationRequired { message })
                && message@
                == "Cached Spotify token did not include a refresh token; reauthorization required"@
        },
        RefreshOutcome::Failed(f) => r matches CacheStep::Reauthorize(
            AuthEvent::ReauthorizationRequired { message },
        ) && message@ == "Cached Spotify token refresh failed ("@ + token_endpoint_message(f)
            + "); reauthorization required"@,
    }
}

/// Decides how the flow goes on from what reading the token cache came to.
pub fn cached_token_step(read: CachedTokenRead, cache_path: &str) -> (r: CacheStep)
    ensures
        cache_step_for(r, read, cache_path@),
{
    match read {
        CachedTokenRead::Absent => CacheStep::Authorize,
        CachedTokenRead::Valid => CacheStep::Reuse(AuthEvent::Cached { cache_path: owned(cache_path) }),
        CachedTokenRead::Expired => CacheStep::Refresh(
            AuthEvent::RefreshingCachedToken { cache_path: owned(cache_path) },
        ),
        CachedTokenRead::MissingScopes => CacheStep::Reauthorize(
            AuthEvent::ReauthorizationRequired {
                message: owned(
                    "Cached Spotify token is missing required scopes; reauthorization required",
                ),
            },
        ),
        CachedTokenRead::Unreadable(e) => CacheStep::Reauthorize(
            AuthEvent::ReauthorizationRequired {
                message: join3(
                    "Cached Spotify token could not be read (",
                    e.as_str(),
                    "); reauthorization required",
                ),
            },
        ),
    }
}

/// Decides how the flow goes on after refreshing an expired cached token.
pub fn refreshed_token_step(outcome: RefreshOutcome, cache_path: &str) -> (r: CacheStep)
    ensures
        refresh_step_for(r, outcome, cache_path@),
{
    match outcome {
        RefreshOutcome::Refreshed { usable } => {
            if usable {
                CacheStep::Reuse(AuthEvent::RefreshedCachedToken { cache_path: owned(cache_path) })
            } else {
                CacheStep::Reauthorize(
                    AuthEvent::ReauthorizationRequired {
                        message: owned(
                            "Cached Spotify token did not include a refresh token; reauthorization required",
                        ),
                    },
                )
            }
        },
        RefreshOutcome::Failed(f) => {
            let detail = spotify_client_error_message(&f);
            CacheStep::Reauthorize(
                AuthEvent::ReauthorizationRequired {
                    message: join3(
                        "Cached Spotify token refresh failed (",
                        detail.as_str(),
                        "); reauthorization required",
                    ),
                },
            )
        },
    }
}

/// The refresh token to put back into a freshly refreshed token. Spotify may
/// leave the refresh token out of a refresh response; the one read from the
/// cache is then kept. `Some` exactly when the loaded token lacks one and the
/// cache had one, so that the token changes and the cache is written again.
pub fn refresh_token_to_restore(refreshed_has_refresh_token: bool, cached: Option<String>) -> (r:
    Option<String>)
    ensures
        r == (if refreshed_has_refresh_token {
            None::<String>
        } else {
            cached
        }),
{
    if refreshed_has_refresh_token {
        None
    } else {
        cached
    }
}

/// How a token exchange ends: the HTTP status and body for the browser, and
/// the event to report or the error the flow fails with.
#[derive(Debug, PartialEq, Eq)]
pub struct ExchangeOutcome {
    /// HTTP status line text for the browser response.
    pub status: &'static str,
    /// Body of the browser response.
    pub body: String,
    /// The completion event, or the error the flow ends with.
    pub result: Result<AuthEvent, AuthError>,
}

/// Decides how the token exchange ends: success completes the session and
/// tells the browser so; a failure is reported to the browser and ends the
/// flow with a Spotify error.
pub fn token_exchange_outcome(exchange: Result<(), ClientFailure>, cache_path: &str) -> (r:
    ExchangeOutcome)
    ensures
        match exchange {
            Ok(()) => {
                &&& r.status@ == "200 OK"@
                &&& r.body@ == "Spotify authorization completed. You can return to spotuify."@
                &&& r.result matches Ok(AuthEvent::Completed { cache_path: p }) && p@ == cache_path@
            },
            Err(f) => {
                &&& r.status@ == "400 Bad Request"@
                &&& r.result matches Err(AuthError::Spotify(m)) && m@ == token_endpoint_message(f)
                &&& r.body@ == failure_body_text(r.result->Err_0)
            },
        },
{
    match exchange {
        Ok(()) => ExchangeOutcome {
            status: HTTP_RESPONSE_OK,
            body: owned(CALLBACK_RESPONSE_SUCCESS),
            result: Ok(AuthEvent::Completed { cache_path: owned(cache_path) }),
        },
        Err(f) => {
            let error = AuthError::Spotify(spotify_client_error_message(&f));
            let body = browser_failure_body(&error);
            ExchangeOutcome { status: HTTP_RESPONSE_BAD_REQUEST, body, result: Err(error) }
        },
    }
}

/// Every cache read that does not give a usable token leads to browser
/// authorization, right away or after a refresh; only a valid token is reused
/// without one.
pub proof fn law_cache_fallback_reaches_authorization(
    r: CacheStep,
    read: CachedTokenRead,
    cache_path: Seq<char>,
)
    requires
        cache_step_for(r, read, cache_path),
    ensures
        r is Reuse <==> read is Valid,
        r is Refresh <==> read is Expired,
        (r is Authorize || r is Reauthorize) <==> (read is Absent || read is MissingScopes
            || read is Unreadable),
{
}

/// A refresh leads to reuse only when Spotify accepted it and the client holds
/// a usable token; every other outcome falls back to reauthorization.
pub proof fn law_refresh_fallback(r: CacheStep, outcome: RefreshOutcome, cache_path: Seq<char>)
    requires
        refresh_step_for(r, outcome, cache_path),
    ensures
        r is Reuse <==> (outcome matches RefreshOutcome::Refreshed { usable } && usable),
        !(r is Reuse) ==> r is Reauthorize,
{
}

} // verus!
