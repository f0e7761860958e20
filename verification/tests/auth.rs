use spotuify::auth::callback::{authorization_error_from_callback_url, browser_failure_body};
use spotuify::auth::error::AuthError;
use spotuify::auth::event::AuthEvent;
use spotuify::auth::redirect::LocalRedirect;
use spotuify::auth::session::{AuthSession, TOKEN_CACHE_FILE_NAME};
use spotuify::config::{AppConfig, SpotifyConfig};

fn valid_config() -> AppConfig {
    AppConfig {
        spotify: SpotifyConfig {
            client_id: Some("client-id".to_owned()),
            redirect_uri: Some("http://127.0.0.1:8888/callback".to_owned()),
        },
    }
}

#[test]
fn auth_auth_session_builds_from_valid_config() {
    let session = AuthSession::from_config(&valid_config()).expect("auth session should build");

    assert_eq!(session.client().creds.id, "client-id");
    assert_eq!(session.local_redirect().host, "127.0.0.1");
    assert_eq!(session.local_redirect().port, 8888);
    assert_eq!(session.local_redirect().path, "/callback");
    assert!(session.token_cache_path().ends_with(TOKEN_CACHE_FILE_NAME));
}

#[test]
fn auth_auth_session_rejects_missing_client_id() {
    let mut config = valid_config();
    config.spotify.client_id = Some(" ".to_owned());

    assert_eq!(
        AuthSession::from_config(&config).expect_err("blank client ID should fail"),
        AuthError::MissingConfig("spotify.client_id")
    );
}

#[test]
fn auth_local_redirect_rejects_non_local_hosts() {
    let err = LocalRedirect::from_uri("http://example.com:8888/callback")
        .expect_err("non-local redirect should fail");

    assert!(matches!(err, AuthError::InvalidRedirectUri(_)));
}

#[test]
fn auth_local_redirect_rejects_localhost_hostname() {
    let err = LocalRedirect::from_uri("http://localhost:8888/callback")
        .expect_err("localhost redirect should fail");

    assert!(matches!(err, AuthError::InvalidRedirectUri(_)));
}

#[test]
fn auth_local_redirect_rejects_https_scheme() {
    let err = LocalRedirect::from_uri("https://127.0.0.1:8888/callback")
        .expect_err("https redirect should fail");

    assert!(matches!(err, AuthError::InvalidRedirectUri(_)));
}

#[test]
fn auth_callback_url_is_reconstructed_from_origin_form_target() {
    let redirect = LocalRedirect::from_uri("http://127.0.0.1:8888/callback")
        .expect("redirect should parse");

    let callback_url = redirect
        .callback_url_from_request_target("/callback?code=code-123&state=state-123")
        .expect("callback URL should be reconstructed");

    assert_eq!(
        callback_url,
        "http://127.0.0.1:8888/callback?code=code-123&state=state-123"
    );
}

#[test]
fn auth_callback_url_rejects_unexpected_path() {
    let redirect = LocalRedirect::from_uri("http://127.0.0.1:8888/callback")
        .expect("redirect should parse");

    let err = redirect
        .callback_url_from_request_target("/wrong?code=code-123&state=state-123")
        .expect_err("wrong path should fail");

    assert!(matches!(err, AuthError::InvalidCallback(_)));
}

#[test]
fn auth_callback_url_reports_spotify_authorization_error() {
    let err = authorization_error_from_callback_url(
        "http://127.0.0.1:8888/callback?error=access_denied&error_description=User%20denied%20access&state=state-123",
    )
    .expect("callback error should be parsed");

    assert_eq!(
        err,
        AuthError::AuthorizationRejected {
            error: "access_denied".to_owned(),
            description: Some("User denied access".to_owned()),
        }
    );
    assert_eq!(
        err.to_string(),
        "Spotify authorization returned access_denied: User denied access"
    );
}

#[test]
fn auth_browser_failure_body_includes_actionable_error() {
    let body = browser_failure_body(&AuthError::Spotify(
        "Spotify token endpoint returned HTTP 400: invalid_grant".to_owned(),
    ));

    assert!(body.contains("Spotify authorization failed."));
    assert!(body.contains("invalid_grant"));
}

#[test]
fn auth_auth_event_marks_terminal_states() {
    assert!(
        AuthEvent::Cached {
            cache_path: String::from("/tmp/token.json"),
        }
        .is_terminal()
    );
    assert!(
        AuthEvent::Completed {
            cache_path: String::from("/tmp/token.json"),
        }
        .is_terminal()
    );
    assert!(
        AuthEvent::RefreshedCachedToken {
            cache_path: String::from("/tmp/token.json"),
        }
        .is_terminal()
    );
    assert!(
        AuthEvent::Failed {
            message: "failed".to_owned(),
        }
        .is_terminal()
    );
    assert!(!AuthEvent::Starting.is_terminal());
    assert!(
        !AuthEvent::RefreshingCachedToken {
            cache_path: String::from("/tmp/token.json"),
        }
        .is_terminal()
    );
    assert!(
        !AuthEvent::ReauthorizationRequired {
            message: "reauth required".to_owned(),
        }
        .is_terminal()
    );
}
