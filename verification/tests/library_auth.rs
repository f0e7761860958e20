use spotuify::auth::flow::{browser_flow_step, BrowserFlow, BrowserFlowInput};
use spotuify::auth::callback::{
    browser_failure_body, browser_response, parse_request_line, CallbackRequestBuffer, RequestRead,
    HTTP_REQUEST_LIMIT,
};
use spotuify::auth::error::{spotify_client_error_message, AuthError};
use spotuify::auth::event::AuthEvent;
use spotuify::auth::failure_event;
use spotuify::auth::redirect::LocalRedirect;
use spotuify::auth::session::{
    cached_token_step, refresh_token_to_restore, refreshed_token_step, required_scopes,
    token_exchange_outcome, AuthSession, CacheStep, CachedTokenRead, RefreshOutcome,
};
use spotuify::client::{ClientFailure, ClientFailureKind, ResponseBody};
use spotuify::config::{AppConfig, SpotifyConfig};
use spotuify::auth::callback::authorization_error_from_callback_url;
use spotuify::auth::callback::authorization_error_from_pairs;
use spotuify::urls::{is_loopback_address, is_loopback_ip_literal, IpLiteral, UrlParts};

fn config() -> AppConfig {
    AppConfig {
        spotify: SpotifyConfig {
            client_id: Some("client-id".to_owned()),
            redirect_uri: Some("http://127.0.0.1:8888/callback".to_owned()),
        },
    }
}

fn session() -> AuthSession {
    AuthSession::from_config_with_cache_path(&config(), Some("/tmp/spotuify-test/cache.json".to_owned()))
        .expect("session should build")
}

fn status_failure(status: u16, body: &str) -> ClientFailure {
    ClientFailure {
        kind: ClientFailureKind::Status {
            status,
            body: ResponseBody::Text(body.to_owned()),
        },
        display: format!("status {status}"),
    }
}

#[test]
fn redirect_parts_come_from_the_parsed_uri() {
    let redirect = LocalRedirect::from_uri("HTTP://127.0.0.1:8888/callback?x=1").expect("redirect");
    assert_eq!(redirect.scheme, "http");
    assert_eq!(redirect.host, "127.0.0.1");
    assert_eq!(redirect.port, 8888);
    assert_eq!(redirect.path, "/callback");
    assert_eq!(
        LocalRedirect::from_uri("not a url"),
        Err(AuthError::InvalidRedirectUri("relative URL without a base".to_owned()))
    );
    assert_eq!(
        LocalRedirect::from_uri("http://127.0.0.1:80/callback"),
        Err(AuthError::InvalidRedirectUri("redirect URI is missing a port".to_owned()))
    );
}

#[test]
fn callback_errors_are_form_decoded_and_the_last_value_wins() {
    assert_eq!(
        authorization_error_from_callback_url(
            "http://127.0.0.1:8888/callback?error=first&error=access%20denied&error_description=no+thanks"
        ),
        Some(AuthError::AuthorizationRejected {
            error: "access denied".to_owned(),
            description: Some("no thanks".to_owned()),
        })
    );
    assert_eq!(
        authorization_error_from_callback_url("http://127.0.0.1:8888/callback?code=1"),
        None
    );
    assert_eq!(authorization_error_from_callback_url("not a url"), None);
}

#[test]
fn loopback_hosts_are_ip_literals() {
    assert!(is_loopback_ip_literal("127.0.0.1"));
    assert!(is_loopback_ip_literal("127.8.9.10"));
    assert!(is_loopback_ip_literal("::1"));
    assert!(!is_loopback_ip_literal("192.168.1.2"));
    assert!(!is_loopback_ip_literal("::2"));
    assert!(!is_loopback_ip_literal("[::1]"));
    assert!(!is_loopback_ip_literal("localhost"));
}

#[test]
fn redirect_errors_carry_their_messages() {
    assert_eq!(
        LocalRedirect::from_uri("https://127.0.0.1:8888/callback"),
        Err(AuthError::InvalidRedirectUri(
            "local callback listener requires an http redirect URI".to_owned()
        ))
    );
    assert_eq!(
        LocalRedirect::from_uri("http://192.168.1.2:8888/callback"),
        Err(AuthError::InvalidRedirectUri(
            "redirect host must be an explicit loopback IP literal like 127.0.0.1 or ::1, got 192.168.1.2"
                .to_owned()
        ))
    );
    assert_eq!(
        LocalRedirect::from_uri("http://[::2]:8888/callback"),
        Err(AuthError::InvalidRedirectUri(
            "redirect host must be an explicit loopback IP literal like 127.0.0.1 or ::1, got [::2]"
                .to_owned()
        ))
    );
    assert_eq!(
        LocalRedirect::from_uri("http://127.0.0.1/callback"),
        Err(AuthError::InvalidRedirectUri("redirect URI is missing a port".to_owned()))
    );
}

#[test]
fn ipv6_loopback_redirect_is_accepted() {
    let redirect = LocalRedirect::from_uri("http://[::1]:8888/callback").expect("redirect");
    assert_eq!(redirect.scheme, "http");
    assert_eq!(redirect.host, "::1");
    assert_eq!(redirect.port, 8888);
    assert_eq!(redirect.path, "/callback");
    assert_eq!(redirect.bind_addr(), "[::1]:8888");
    assert_eq!(redirect.origin(), "http://[::1]:8888");
    assert_eq!(
        redirect.callback_url_from_request_target("/callback?code=1"),
        Ok("http://[::1]:8888/callback?code=1".to_owned())
    );
}

#[test]
fn redirect_addresses_and_absolute_callbacks() {
    let redirect = LocalRedirect::from_uri("http://127.0.0.1:8888/callback").expect("redirect");
    assert_eq!(redirect.bind_addr(), "127.0.0.1:8888");
    assert_eq!(redirect.origin(), "http://127.0.0.1:8888");
    assert_eq!(redirect.host_for_url(), "127.0.0.1");
    assert_eq!(
        redirect.callback_url_from_request_target("http://127.0.0.1:8888/callback?code=1"),
        Ok("http://127.0.0.1:8888/callback?code=1".to_owned())
    );
    assert_eq!(
        redirect.callback_url_from_request_target("http://127.0.0.1:9999/callback?code=1"),
        Err(AuthError::InvalidCallback(
            "callback port did not match configured redirect URI".to_owned()
        ))
    );
    assert_eq!(
        redirect.callback_url_from_request_target("http://127.0.0.2:8888/callback"),
        Err(AuthError::InvalidCallback(
            "callback host did not match configured redirect URI".to_owned()
        ))
    );
}

#[test]
fn request_lines_yield_the_target_or_a_reason() {
    assert_eq!(
        parse_request_line("GET /callback?code=1 HTTP/1.1\r\nHost: x\r\n\r\n"),
        Ok("/callback?code=1".to_owned())
    );
    assert_eq!(
        parse_request_line(""),
        Err(AuthError::InvalidCallback("callback request was empty".to_owned()))
    );
    assert_eq!(
        parse_request_line("   \r\nHost: x"),
        Err(AuthError::InvalidCallback("callback request method missing".to_owned()))
    );
    assert_eq!(
        parse_request_line("GET"),
        Err(AuthError::InvalidCallback("callback request target missing".to_owned()))
    );
    assert_eq!(
        parse_request_line("GET /callback"),
        Err(AuthError::InvalidCallback("callback request version missing".to_owned()))
    );
    assert_eq!(
        parse_request_line("POST /callback HTTP/1.1"),
        Err(AuthError::InvalidCallback(
            "callback request used unsupported method POST".to_owned()
        ))
    );
}

#[test]
fn request_buffer_completes_at_head_end_or_close() {
    let mut buffer = CallbackRequestBuffer::new();
    assert_eq!(buffer.absorb(b"GET /callback?code=1 HTTP/1.1\r\n"), Ok(RequestRead::NeedMore));
    assert_eq!(buffer.absorb(b"Host: x\r\n\r\n"), Ok(RequestRead::Complete));
    assert_eq!(buffer.request_target(), Ok("/callback?code=1".to_owned()));

    let mut closed = CallbackRequestBuffer::new();
    assert_eq!(closed.absorb(b"GET /cb HTTP/1.1"), Ok(RequestRead::NeedMore));
    assert_eq!(closed.absorb(b""), Ok(RequestRead::Complete));
    assert_eq!(closed.request_target(), Ok("/cb".to_owned()));

    let empty = CallbackRequestBuffer::new();
    assert_eq!(
        empty.request_target(),
        Err(AuthError::InvalidCallback("callback request was empty".to_owned()))
    );
}

#[test]
fn request_buffer_decodes_invalid_utf8_lossily() {
    let mut buffer = CallbackRequestBuffer::new();
    assert_eq!(buffer.absorb(b"GET /cb\xff HTTP/1.1\r\n\r\n"), Ok(RequestRead::Complete));
    assert_eq!(buffer.request_target(), Ok("/cb\u{FFFD}".to_owned()));
}

#[test]
fn request_buffer_refuses_oversized_heads() {
    let mut buffer = CallbackRequestBuffer::new();
    let chunk = vec![b'a'; HTTP_REQUEST_LIMIT];
    assert_eq!(buffer.absorb(&chunk), Ok(RequestRead::NeedMore));
    assert_eq!(
        buffer.absorb(b"a"),
        Err(AuthError::InvalidCallback("callback request exceeded maximum size".to_owned()))
    );
}

#[test]
fn browser_response_frames_status_and_body() {
    assert_eq!(
        browser_response("200 OK", "hi"),
        "HTTP/1.1 200 OK\r\nContent-Type: text/plain; charset=utf-8\r\nContent-Length: 2\r\nConnection: close\r\n\r\nhi"
    );
    assert_eq!(
        browser_response("400 Bad Request", "é"),
        "HTTP/1.1 400 Bad Request\r\nContent-Type: text/plain; charset=utf-8\r\nContent-Length: 2\r\nConnection: close\r\n\r\né"
    );
}

#[test]
fn auth_error_texts_and_failure_events() {
    let rejected = AuthError::AuthorizationRejected {
        error: "access_denied".to_owned(),
        description: Some("user said no".to_owned()),
    };
    assert_eq!(
        rejected.to_string(),
        "Spotify authorization returned access_denied: user said no"
    );
    assert_eq!(
        AuthError::MissingConfig("spotify.client_id").to_string(),
        "missing required config: spotify.client_id"
    );
    assert_eq!(
        AuthError::TokenCachePathUnavailable.to_string(),
        "could not resolve token cache path"
    );
    assert_eq!(AuthError::Io("disk".to_owned()).to_string(), "auth IO failed: disk");
    assert_eq!(
        failure_event(&AuthError::Spotify("boom".to_owned())),
        AuthEvent::Failed {
            message: "Spotify auth failed: boom".to_owned()
        }
    );
    assert_eq!(
        browser_failure_body(&AuthError::InvalidCallback("bad".to_owned())),
        "Spotify authorization failed.\n\ninvalid callback: bad\n\nReturn to spotuify for details."
    );
}

#[test]
fn token_endpoint_messages_are_compact() {
    assert_eq!(
        spotify_client_error_message(&status_failure(400, "invalid_grant")),
        "Spotify token endpoint returned HTTP 400: invalid_grant"
    );
    assert_eq!(
        spotify_client_error_message(&status_failure(503, "  ")),
        "Spotify token endpoint returned HTTP 503"
    );
    let unreadable = ClientFailure {
        kind: ClientFailureKind::Status {
            status: 500,
            body: ResponseBody::Unreadable("eof".to_owned()),
        },
        display: "status 500".to_owned(),
    };
    assert_eq!(
        spotify_client_error_message(&unreadable),
        "Spotify token endpoint returned HTTP 500; could not read response body: eof"
    );
    let transport = ClientFailure {
        kind: ClientFailureKind::Transport("connection reset".to_owned()),
        display: "http error".to_owned(),
    };
    assert_eq!(spotify_client_error_message(&transport), "connection reset");
}

#[test]
fn session_needs_a_cache_path_and_a_local_redirect() {
    assert_eq!(
        AuthSession::from_config_with_cache_path(&config(), None).err(),
        Some(AuthError::TokenCachePathUnavailable)
    );
    let mut remote = config();
    remote.spotify.redirect_uri = Some("http://example.com:8888/callback".to_owned());
    assert!(matches!(
        AuthSession::from_config_with_cache_path(&remote, Some("/tmp/x.json".to_owned())),
        Err(AuthError::InvalidRedirectUri(_))
    ));
    let mut no_redirect = config();
    no_redirect.spotify.redirect_uri = None;
    assert_eq!(
        AuthSession::from_config_with_cache_path(&no_redirect, Some("/tmp/x.json".to_owned()))
            .err(),
        Some(AuthError::MissingConfig("spotify.redirect_uri"))
    );
    let s = session();
    assert_eq!(s.token_cache_path(), "/tmp/spotuify-test/cache.json");
    assert_eq!(s.client().creds.id, "client-id");
    let settings = s.settings();
    assert_eq!(settings.client_id, "client-id");
    assert_eq!(settings.redirect_uri, "http://127.0.0.1:8888/callback");
    assert_eq!(settings.scopes, required_scopes());
    assert_eq!(settings.cache_path, "/tmp/spotuify-test/cache.json");
    assert!(settings.token_cached);
    assert!(settings.token_refreshing);
    assert_eq!(s.client().oauth.redirect_uri, "http://127.0.0.1:8888/callback");
    assert!(s.client().config.token_cached);
    assert!(s.client().config.token_refreshing);
    assert_eq!(
        s.client().config.cache_path,
        std::path::PathBuf::from("/tmp/spotuify-test/cache.json")
    );
}

#[test]
fn session_asks_for_the_playback_scopes() {
    assert_eq!(
        required_scopes(),
        vec![
            "user-read-private",
            "user-read-playback-state",
            "user-read-currently-playing",
            "user-modify-playback-state",
            "user-library-read",
            "playlist-read-private",
            "playlist-read-collaborative",
        ]
    );
}

#[test]
fn authorize_url_points_at_spotify_with_pkce() {
    let mut s = session();
    let url = s.authorize_url().expect("authorize URL should build");
    assert!(url.starts_with("https://accounts.spotify.com/authorize?"));
    assert!(url.contains("client_id=client-id"));
    assert!(url.contains("code_challenge_method=S256"));
    assert!(url.contains("redirect_uri=http%3A%2F%2F127.0.0.1%3A8888%2Fcallback"));
}

#[test]
fn authorization_code_checks_callback_and_state() {
    let s = session();
    let state = s.client().oauth.state.clone();
    assert_eq!(
        s.authorization_code(&format!("/callback?code=abc&state={state}")),
        Ok("abc".to_owned())
    );
    assert_eq!(
        s.authorization_code("/callback?code=abc&state=wrong-state"),
        Err(AuthError::InvalidCallback(
            "Spotify callback did not include a valid code and state".to_owned()
        ))
    );
    assert_eq!(
        s.authorization_code("/callback?error=access_denied"),
        Err(AuthError::AuthorizationRejected {
            error: "access_denied".to_owned(),
            description: None,
        })
    );
    assert_eq!(
        s.authorization_code("/other?code=abc"),
        Err(AuthError::InvalidCallback(
            "callback path did not match configured redirect URI".to_owned()
        ))
    );
}

#[test]
fn cache_reads_lead_to_the_documented_steps() {
    let path = "/tmp/cache.json";
    assert_eq!(cached_token_step(CachedTokenRead::Absent, path), CacheStep::Authorize);
    assert_eq!(
        cached_token_step(CachedTokenRead::Valid, path),
        CacheStep::Reuse(AuthEvent::Cached {
            cache_path: path.to_owned()
        })
    );
    assert_eq!(
        cached_token_step(CachedTokenRead::Expired, path),
        CacheStep::Refresh(AuthEvent::RefreshingCachedToken {
            cache_path: path.to_owned()
        })
    );
    assert_eq!(
        cached_token_step(CachedTokenRead::MissingScopes, path),
        CacheStep::Reauthorize(AuthEvent::ReauthorizationRequired {
            message: "Cached Spotify token is missing required scopes; reauthorization required"
                .to_owned()
        })
    );
    assert_eq!(
        cached_token_step(CachedTokenRead::Unreadable("bad json".to_owned()), path),
        CacheStep::Reauthorize(AuthEvent::ReauthorizationRequired {
            message: "Cached Spotify token could not be read (bad json); reauthorization required"
                .to_owned()
        })
    );
}

#[test]
fn refresh_outcomes_lead_to_reuse_or_reauthorization() {
    let path = "/tmp/cache.json";
    assert_eq!(
        refreshed_token_step(RefreshOutcome::Refreshed { usable: true }, path),
        CacheStep::Reuse(AuthEvent::RefreshedCachedToken {
            cache_path: path.to_owned()
        })
    );
    assert_eq!(
        refreshed_token_step(RefreshOutcome::Refreshed { usable: false }, path),
        CacheStep::Reauthorize(AuthEvent::ReauthorizationRequired {
            message:
                "Cached Spotify token did not include a refresh token; reauthorization required"
                    .to_owned()
        })
    );
    assert_eq!(
        refreshed_token_step(RefreshOutcome::Failed(status_failure(400, "invalid_grant")), path),
        CacheStep::Reauthorize(AuthEvent::ReauthorizationRequired {
            message: "Cached Spotify token refresh failed (Spotify token endpoint returned HTTP 400: invalid_grant); reauthorization required"
                .to_owned()
        })
    );
}

#[test]
fn cached_refresh_token_is_kept_only_when_missing() {
    assert_eq!(
        refresh_token_to_restore(false, Some("cached".to_owned())),
        Some("cached".to_owned())
    );
    assert_eq!(refresh_token_to_restore(true, Some("cached".to_owned())), None);
    assert_eq!(refresh_token_to_restore(false, None), None);
}

#[test]
fn token_exchange_reports_to_browser_and_flow() {
    let ok = token_exchange_outcome(Ok(()), "/tmp/cache.json");
    assert_eq!(ok.status, "200 OK");
    assert_eq!(
        ok.body,
        "Spotify authorization completed. You can return to spotuify."
    );
    assert_eq!(
        ok.result,
        Ok(AuthEvent::Completed {
            cache_path: "/tmp/cache.json".to_owned()
        })
    );

    let failed = token_exchange_outcome(Err(status_failure(400, "bad code")), "/tmp/cache.json");
    assert_eq!(failed.status, "400 Bad Request");
    assert_eq!(
        failed.result,
        Err(AuthError::Spotify(
            "Spotify token endpoint returned HTTP 400: bad code".to_owned()
        ))
    );
    assert_eq!(
        failed.body,
        "Spotify authorization failed.\n\nSpotify auth failed: Spotify token endpoint returned HTTP 400: bad code\n\nReturn to spotuify for details."
    );
}

#[test]
fn browser_flow_reports_events_in_order() {
    let (stage, events) = browser_flow_step(
        BrowserFlow::Start,
        BrowserFlowInput::UrlReady {
            url: "https://accounts.spotify.com/authorize?x=1".to_owned(),
            callback_addr: "127.0.0.1:8888".to_owned(),
        },
    )
    .expect("url step");
    assert_eq!(
        events,
        vec![AuthEvent::AuthorizationUrl {
            url: "https://accounts.spotify.com/authorize?x=1".to_owned(),
            callback_addr: "127.0.0.1:8888".to_owned(),
        }]
    );
    let (stage, events) = browser_flow_step(
        stage,
        BrowserFlowInput::BrowserLaunched {
            failure: Some("no browser".to_owned()),
        },
    )
    .expect("launch step");
    assert_eq!(
        events,
        vec![
            AuthEvent::BrowserOpenFailed {
                message: "no browser".to_owned()
            },
            AuthEvent::WaitingForCallback {
                callback_addr: "127.0.0.1:8888".to_owned()
            },
        ]
    );
    let (stage, events) =
        browser_flow_step(stage, BrowserFlowInput::CodeReceived).expect("code step");
    assert_eq!(events, vec![AuthEvent::ExchangingCode]);
    assert_eq!(stage, BrowserFlow::Exchanging);
    assert_eq!(browser_flow_step(stage, BrowserFlowInput::CodeReceived), None);
    assert_eq!(
        browser_flow_step(BrowserFlow::Start, BrowserFlowInput::CodeReceived),
        None
    );
}

#[test]
fn browser_flow_without_launch_failure_just_waits() {
    let (stage, events) = browser_flow_step(
        BrowserFlow::UrlShown {
            callback_addr: "[::1]:8888".to_owned(),
        },
        BrowserFlowInput::BrowserLaunched { failure: None },
    )
    .expect("launch step");
    assert_eq!(stage, BrowserFlow::Waiting);
    assert_eq!(
        events,
        vec![AuthEvent::WaitingForCallback {
            callback_addr: "[::1]:8888".to_owned()
        }]
    );
}

fn url_parts(scheme: &str, host: Option<&str>, port: Option<u16>, path: &str) -> UrlParts {
    UrlParts {
        scheme: scheme.to_owned(),
        host: host.map(str::to_owned),
        port,
        known_port: port.or(Some(80)),
        path: path.to_owned(),
        query: None,
        serialized: format!("{scheme}://x{path}"),
    }
}

#[test]
fn redirect_checks_on_parsed_parts() {
    let redirect = LocalRedirect::from_url(url_parts("http", Some("[::1]"), Some(9000), "/cb"))
        .expect("redirect");
    assert_eq!(redirect.host, "::1");
    assert_eq!(redirect.port, 9000);
    assert_eq!(
        LocalRedirect::from_url(url_parts("http", None, Some(9000), "/cb")),
        Err(AuthError::InvalidRedirectUri("redirect URI is missing a host".to_owned()))
    );
    assert_eq!(
        LocalRedirect::from_url(url_parts("ftp", Some("127.0.0.1"), Some(9000), "/cb")),
        Err(AuthError::InvalidRedirectUri(
            "local callback listener requires an http redirect URI".to_owned()
        ))
    );
}

#[test]
fn callback_checks_on_parsed_parts() {
    let redirect = LocalRedirect::from_uri("http://127.0.0.1:8888/callback").expect("redirect");
    let ok = url_parts("http", Some("127.0.0.1"), Some(8888), "/callback");
    assert_eq!(
        redirect.callback_url_from_parsed(Ok(ok.clone())),
        Ok("http://x/callback".to_owned())
    );
    assert_eq!(
        redirect.callback_url_from_parsed(Err("bad url".to_owned())),
        Err(AuthError::InvalidCallback("bad url".to_owned()))
    );
    let mut wrong_path = ok.clone();
    wrong_path.path = "/other".to_owned();
    assert_eq!(
        redirect.callback_url_from_parsed(Ok(wrong_path)),
        Err(AuthError::InvalidCallback(
            "callback path did not match configured redirect URI".to_owned()
        ))
    );
    let mut wrong_scheme = ok;
    wrong_scheme.scheme = "https".to_owned();
    assert_eq!(
        redirect.callback_url_from_parsed(Ok(wrong_scheme)),
        Err(AuthError::InvalidCallback(
            "callback scheme did not match configured redirect URI".to_owned()
        ))
    );
}

#[test]
fn oauth_errors_from_decoded_pairs() {
    let pairs = vec![
        ("error".to_owned(), "first".to_owned()),
        ("error_description".to_owned(), "why".to_owned()),
        ("error".to_owned(), "access_denied".to_owned()),
    ];
    assert_eq!(
        authorization_error_from_pairs(&pairs),
        Some(AuthError::AuthorizationRejected {
            error: "access_denied".to_owned(),
            description: Some("why".to_owned()),
        })
    );
    assert_eq!(
        authorization_error_from_pairs(&vec![("code".to_owned(), "1".to_owned())]),
        None
    );
}

#[test]
fn loopback_addresses() {
    assert!(is_loopback_address(Some(IpLiteral::V4([127, 0, 0, 2]))));
    assert!(!is_loopback_address(Some(IpLiteral::V4([10, 0, 0, 1]))));
    assert!(is_loopback_address(Some(IpLiteral::V6([0, 0, 0, 0, 0, 0, 0, 1]))));
    assert!(!is_loopback_address(None));
}

#[test]
fn authorize_url_carries_the_fixed_parameters() {
    let mut s = session();
    let state = s.client().oauth.state.clone();
    let url = s.authorize_url().expect("authorize URL");
    let parsed = url::Url::parse(&url).expect("URL parses");
    assert_eq!(parsed.scheme(), "https");
    assert_eq!(parsed.host_str(), Some("accounts.spotify.com"));
    assert_eq!(parsed.path(), "/authorize");
    let pairs: std::collections::HashMap<String, String> = parsed.query_pairs().into_owned().collect();
    assert_eq!(pairs.get("client_id").map(String::as_str), Some("client-id"));
    assert_eq!(pairs.get("response_type").map(String::as_str), Some("code"));
    assert_eq!(
        pairs.get("redirect_uri").map(String::as_str),
        Some("http://127.0.0.1:8888/callback")
    );
    assert_eq!(pairs.get("code_challenge_method").map(String::as_str), Some("S256"));
    assert_eq!(pairs.get("state"), Some(&state));
    let mut scopes: Vec<&str> = pairs["scope"].split(' ').collect();
    scopes.sort();
    let mut expected = required_scopes();
    expected.sort();
    assert_eq!(scopes, expected);
}
