use spotuify::auth::session::{AuthSession, TOKEN_CACHE_FILE_NAME};
use spotuify::config::{AppConfig, SpotifyConfig};

fn valid_config() -> AppConfig {
    AppConfig {
        spotify: SpotifyConfig {
            client_id: Some("client-id".to_owned()),
            redirect_uri: Some("http://127.0.0.1:8888/callback".to_owned()),
        },
    }
}

#[test]
fn session_auth_session_builds_from_valid_config() {
    let session = AuthSession::from_config(&valid_config()).expect("auth session should build");

    assert_eq!(session.client().creds.id, "client-id");
    assert_eq!(session.local_redirect().host, "127.0.0.1");
    assert_eq!(session.local_redirect().port, 8888);
    assert_eq!(session.local_redirect().path, "/callback");
    assert!(session.token_cache_path().ends_with(TOKEN_CACHE_FILE_NAME));
}
