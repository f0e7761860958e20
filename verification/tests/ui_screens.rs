use spotuify::app::fatal::FatalError;
use spotuify::app::msg::Msg;
use spotuify::auth::event::AuthEvent;
use spotuify::config::{ConfigBootstrap, ConfigIssue};
use spotuify::ui::screens::auth::AuthScreenState;
use spotuify::ui::screens::common::{handle_common_event, KeyCode, ScreenFrameState, TerminalEvent};
use spotuify::ui::screens::fatal::FatalScreenState;
use spotuify::ui::screens::setup::SetupScreenState;

#[test]
fn auth_state_renders_cached_token_refresh_events() {
    let mut state = AuthScreenState::default();

    state.apply(AuthEvent::RefreshingCachedToken {
        cache_path: String::from("/tmp/spotuify/token.json"),
    });

    assert_eq!(
        state.status,
        "Spotify cached token at /tmp/spotuify/token.json expired; refreshing session"
    );
    assert_eq!(state.authorize_url, None);
    assert_eq!(state.browser_open_error, None);

    state.apply(AuthEvent::RefreshedCachedToken {
        cache_path: String::from("/tmp/spotuify/token.json"),
    });

    assert_eq!(
        state.status,
        "Spotify session refreshed and saved at /tmp/spotuify/token.json"
    );
    assert_eq!(state.authorize_url, None);
    assert_eq!(state.browser_open_error, None);
}

#[test]
fn auth_state_renders_reauthorization_required_message() {
    let mut state = AuthScreenState {
        status: "old status".to_owned(),
        authorize_url: Some("https://accounts.spotify.com/authorize".to_owned()),
        browser_open_error: Some("browser error".to_owned()),
        ..AuthScreenState::default()
    };

    state.apply(AuthEvent::ReauthorizationRequired {
        message: "Spotify reauthorization required".to_owned(),
    });

    assert_eq!(state.status, "Spotify reauthorization required");
    assert_eq!(state.authorize_url, None);
    assert_eq!(state.browser_open_error, None);
}

#[test]
fn fatal_state_stores_error_details() {
    let mut state = FatalScreenState::default();

    state.apply(
        FatalError::new("Spotify auth", "auth flow exploded").with_details("Check config."),
    );

    assert_eq!(state.source, Some("Spotify auth"));
    assert_eq!(state.message.as_deref(), Some("auth flow exploded"));
    assert_eq!(state.details.as_deref(), Some("Check config."));
}

#[test]
fn setup_state_reflects_config_bootstrap_status() {
    let config = ConfigBootstrap::NeedsSetup {
        path: Some(String::from("/tmp/spotuify/config.toml")),
        issue: ConfigIssue::MissingFile,
    };

    let state = SetupScreenState::from_config(&config);

    assert_eq!(
        state.config_status,
        "missing config file; setup required (/tmp/spotuify/config.toml)"
    );
}

#[test]
fn common_tick_event_updates_screen_frame_state() {
    let mut frame = ScreenFrameState::default();

    let msg = handle_common_event(&mut frame, &TerminalEvent::Tick);

    assert_eq!(msg, Some(Msg::Tick));
    assert_eq!(frame.ticks, 1);
}

#[test]
fn common_resize_event_updates_screen_frame_state() {
    let mut frame = ScreenFrameState::default();

    let msg = handle_common_event(&mut frame, &TerminalEvent::WindowResize(120, 40));

    assert_eq!(
        msg,
        Some(Msg::WindowResize {
            width: 120,
            height: 40,
        })
    );
    assert_eq!(frame.terminal_size, Some((120, 40)));
}

#[test]
fn common_quit_events_emit_quit_message() {
    let mut frame = ScreenFrameState::default();

    assert_eq!(
        handle_common_event(
            &mut frame,
            &TerminalEvent::Key { code: KeyCode::Esc, control: false }
        ),
        Some(Msg::Quit)
    );
    assert_eq!(
        handle_common_event(
            &mut frame,
            &TerminalEvent::Key { code: KeyCode::Char('q'), control: false }
        ),
        Some(Msg::Quit)
    );
    assert_eq!(
        handle_common_event(
            &mut frame,
            &TerminalEvent::Key { code: KeyCode::Char('c'), control: true }
        ),
        Some(Msg::Quit)
    );
}
