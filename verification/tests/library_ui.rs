use spotuify::app::fatal::FatalError;
use spotuify::app::msg::Msg;
use spotuify::auth::event::AuthEvent;
use spotuify::config::{AppConfig, ConfigBootstrap, ConfigIssue, SpotifyConfig};
use spotuify::ui::screens::auth::AuthScreenState;
use spotuify::ui::screens::common::{handle_common_event, KeyCode, ScreenFrameState, TerminalEvent};
use spotuify::ui::screens::fatal::FatalScreenState;
use spotuify::ui::screens::home::HomeScreenState;
use spotuify::ui::screens::setup::SetupScreenState;

fn ready() -> ConfigBootstrap {
    ConfigBootstrap::Ready {
        path: "/tmp/spotuify/config.toml".to_owned(),
        config: AppConfig {
            spotify: SpotifyConfig {
                client_id: Some("id".to_owned()),
                redirect_uri: Some("http://127.0.0.1:8888/callback".to_owned()),
            },
        },
    }
}

#[test]
fn size_label_prefers_the_last_terminal_size() {
    let mut frame = ScreenFrameState::default();
    assert_eq!(frame.size_label(80, 24), "80x24");
    frame.record_resize(120, 40);
    assert_eq!(frame.size_label(80, 24), "120x40");
}

#[test]
fn tick_counter_saturates() {
    let mut frame = ScreenFrameState {
        ticks: u64::MAX,
        terminal_size: None,
    };
    frame.record_tick();
    assert_eq!(frame.ticks, u64::MAX);
}

#[test]
fn other_keys_and_events_emit_nothing() {
    let mut frame = ScreenFrameState::default();
    assert_eq!(
        handle_common_event(&mut frame, &TerminalEvent::Key { code: KeyCode::Char('Q'), control: false }),
        Some(Msg::Quit)
    );
    assert_eq!(
        handle_common_event(&mut frame, &TerminalEvent::Key { code: KeyCode::Char('c'), control: false }),
        None
    );
    assert_eq!(
        handle_common_event(&mut frame, &TerminalEvent::Key { code: KeyCode::Other, control: true }),
        None
    );
    assert_eq!(handle_common_event(&mut frame, &TerminalEvent::Other), None);
    assert_eq!(frame, ScreenFrameState::default());
}

#[test]
fn home_text_shows_size_and_ticks() {
    let mut home = HomeScreenState::default();
    home.frame.record_tick();
    assert_eq!(
        home.render_text(100, 30),
        "Home\n\nSpotuify is ready.\n\nEvent loop: active\nDraw cycle: active\nTerminal: raw mode + alternate screen\nSize: 100x30\nTicks: 1\n\nPress q, Esc, or Ctrl-C to quit."
    );
}

#[test]
fn setup_text_shows_config_status() {
    let setup = SetupScreenState::from_config(&ready());
    assert_eq!(
        setup.render_text(80, 24),
        "Setup\n\nConfig: loaded /tmp/spotuify/config.toml; Spotify settings complete for http://127.0.0.1:8888/callback\n\nEvent loop: active\nDraw cycle: active\nTerminal: raw mode + alternate screen\nSize: 80x24\nTicks: 0\n\nPress q, Esc, or Ctrl-C to quit."
    );
    assert_eq!(SetupScreenState::default().config_status, "config not checked");
}

#[test]
fn auth_state_starts_from_config_readiness() {
    assert_eq!(AuthScreenState::from_config(&ready()).status, "Spotify auth starting");
    let needs_setup = ConfigBootstrap::NeedsSetup {
        path: None,
        issue: ConfigIssue::MissingFile,
    };
    assert_eq!(
        AuthScreenState::from_config(&needs_setup).status,
        "Spotify auth waiting for setup"
    );
    assert_eq!(AuthScreenState::default().status, "Spotify auth not started");
}

#[test]
fn auth_text_shows_url_to_copy_after_browser_failure() {
    let mut state = AuthScreenState::default();
    state.apply(AuthEvent::AuthorizationUrl {
        url: "https://accounts.spotify.com/authorize?x=1".to_owned(),
        callback_addr: "127.0.0.1:8888".to_owned(),
    });
    assert_eq!(
        state.status,
        "Spotify authorization URL generated; waiting on 127.0.0.1:8888"
    );
    state.apply(AuthEvent::BrowserOpenFailed {
        message: "no browser".to_owned(),
    });
    assert_eq!(
        state.status,
        "Could not open browser automatically; copy the auth URL below (no browser)"
    );
    state.apply(AuthEvent::WaitingForCallback {
        callback_addr: "127.0.0.1:8888".to_owned(),
    });
    assert_eq!(
        state.status,
        "Waiting for Spotify callback on 127.0.0.1:8888; browser did not open automatically"
    );
    assert_eq!(state.browser_open_error.as_deref(), Some("no browser"));
    assert_eq!(
        state.render_text(80, 24),
        "Spotify Auth\n\nStatus: Waiting for Spotify callback on 127.0.0.1:8888; browser did not open automatically\n\nEvent loop: active\nDraw cycle: active\nTerminal: raw mode + alternate screen\nSize: 80x24\nTicks: 0\n\nSpotify auth URL:\nhttps://accounts.spotify.com/authorize?x=1\n\nPress q, Esc, or Ctrl-C to quit."
    );

    state.apply(AuthEvent::ExchangingCode);
    assert_eq!(
        state.status,
        "Spotify callback received; exchanging code for tokens"
    );
    state.apply(AuthEvent::Completed {
        cache_path: "/tmp/token.json".to_owned(),
    });
    assert_eq!(state.status, "Spotify session authenticated and saved at /tmp/token.json");
    assert_eq!(state.authorize_url, None);
    assert_eq!(state.browser_open_error, None);
}

#[test]
fn auth_failure_keeps_url_but_drops_browser_error() {
    let mut state = AuthScreenState::default();
    state.apply(AuthEvent::AuthorizationUrl {
        url: "u".to_owned(),
        callback_addr: "a".to_owned(),
    });
    state.apply(AuthEvent::BrowserOpenFailed {
        message: "m".to_owned(),
    });
    state.apply(AuthEvent::Failed {
        message: "boom".to_owned(),
    });
    assert_eq!(state.status, "Spotify auth failed: boom");
    assert_eq!(state.authorize_url.as_deref(), Some("u"));
    assert_eq!(state.browser_open_error, None);

    state.apply(AuthEvent::Starting);
    assert_eq!(state.status, "Spotify auth starting");
    assert_eq!(state.authorize_url, None);
}

#[test]
fn fatal_text_has_fallbacks_and_next_steps() {
    assert_eq!(
        FatalScreenState::default().render_text(),
        "Unknown subsystem encountered an unrecoverable error.\n\nUnrecoverable error.\n\nPress q, Esc, or Ctrl-C to quit."
    );
    let mut state = FatalScreenState::default();
    state.apply(FatalError::new("Spotify auth", "token exchange failed").with_details("Retry."));
    assert_eq!(
        state.render_text(),
        "Spotify auth encountered an unrecoverable error.\n\ntoken exchange failed\n\nNext steps:\nRetry.\n\nPress q, Esc, or Ctrl-C to quit."
    );
    let mut empty_details = FatalScreenState::default();
    empty_details.apply(FatalError::new("Config", "bad").with_details(""));
    assert_eq!(
        empty_details.render_text(),
        "Config encountered an unrecoverable error.\n\nbad\n\nPress q, Esc, or Ctrl-C to quit."
    );
}
