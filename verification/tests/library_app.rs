use spotuify::app::action::Action;
use spotuify::app::auth_events::{action_for_auth_event, auth_drain_step, AuthPoll};
use spotuify::app::fatal::FatalError;
use spotuify::app::router::{Router, Screen, ScreenTransition};
use spotuify::app::state::AppState;
use spotuify::auth::event::AuthEvent;
use spotuify::ui::Id;

#[test]
fn router_push_then_back_restores_history() {
    let mut router = Router::with_initial_screen(Screen::Setup);
    assert!(router.apply(ScreenTransition::Push(Screen::Auth)));
    assert_eq!(router.stack, vec![Screen::Setup, Screen::Auth]);
    assert!(router.apply(ScreenTransition::Back));
    assert_eq!(router.stack, vec![Screen::Setup]);
}

#[test]
fn router_replace_keeps_depth_and_reports_change() {
    let mut router = Router::new();
    router.apply(ScreenTransition::Push(Screen::Auth));
    assert!(router.apply(ScreenTransition::Replace(Screen::Setup)));
    assert_eq!(router.stack, vec![Screen::Home, Screen::Setup]);
    assert!(!router.apply(ScreenTransition::Replace(Screen::Setup)));
    assert_eq!(router.current(), Screen::Setup);
}

#[test]
fn router_on_empty_history_shows_home_and_replace_fills_it() {
    let mut router = Router { stack: Vec::new() };
    assert_eq!(router.current(), Screen::Home);
    assert!(!router.apply(ScreenTransition::Replace(Screen::Home)));
    assert!(router.apply(ScreenTransition::Replace(Screen::Auth)));
    assert_eq!(router.stack, vec![Screen::Auth]);
}

#[test]
fn screen_labels_match_routes() {
    assert_eq!(Screen::Home.label(), "Home");
    assert_eq!(Screen::Setup.label(), "Setup");
    assert_eq!(Screen::Auth.label(), "Auth");
    assert_eq!(Screen::FatalError.label(), "Fatal Error");
    assert_eq!(Router::default().stack, vec![Screen::Home]);
}

#[test]
fn quit_stays_set_across_later_actions() {
    let mut state = AppState::default();
    state.apply(Action::Quit);
    state.apply(Action::Rendered);
    state.apply(Action::Navigate(ScreenTransition::Push(Screen::Auth)));
    state.apply(Action::Tick);
    assert!(state.should_quit);
}

#[test]
fn unchanged_navigation_keeps_pending_redraw() {
    let mut state = AppState::default();
    state.apply(Action::RequestRedraw);
    state.apply(Action::Navigate(ScreenTransition::Back));
    assert!(state.needs_redraw);
}

#[test]
fn fatal_on_fatal_screen_keeps_history() {
    let mut state = AppState::default();
    state.apply(Action::Navigate(ScreenTransition::Push(Screen::Auth)));
    state.apply(Action::Fatal(FatalError::new("Spotify auth", "first")));
    state.apply(Action::Rendered);
    state.apply(Action::Fatal(FatalError::new("Spotify auth", "second")));
    assert_eq!(state.router.stack, vec![Screen::Home, Screen::FatalError]);
    assert!(state.needs_redraw);
}

#[test]
fn auth_events_map_to_actions() {
    let failed = AuthEvent::Failed {
        message: "Spotify auth failed: boom".to_owned(),
    };
    match action_for_auth_event(&failed) {
        Action::Fatal(fatal) => {
            assert_eq!(fatal.source, "Spotify auth");
            assert_eq!(fatal.message, "Spotify auth failed: boom");
            assert_eq!(
                fatal.details.as_deref(),
                Some("Verify your Spotify client ID and redirect URI in the app config, then restart spotuify.")
            );
        }
        other => panic!("unexpected action {other:?}"),
    }
    let home = Action::Navigate(ScreenTransition::Replace(Screen::Home));
    for event in [
        AuthEvent::Cached { cache_path: "/c".to_owned() },
        AuthEvent::RefreshedCachedToken { cache_path: "/c".to_owned() },
        AuthEvent::Completed { cache_path: "/c".to_owned() },
    ] {
        assert_eq!(action_for_auth_event(&event), home);
    }
    for event in [
        AuthEvent::Starting,
        AuthEvent::ExchangingCode,
        AuthEvent::RefreshingCachedToken { cache_path: "/c".to_owned() },
        AuthEvent::WaitingForCallback { callback_addr: "127.0.0.1:8888".to_owned() },
    ] {
        assert_eq!(action_for_auth_event(&event), Action::RequestRedraw);
    }
}

#[test]
fn drain_steps_release_channel_after_terminal_events() {
    let step = auth_drain_step(false, AuthPoll::Received(AuthEvent::Starting));
    assert_eq!(step.event, Some(AuthEvent::Starting));
    assert!(step.keep_polling);
    assert!(!step.release_channel);

    let step = auth_drain_step(false, AuthPoll::Received(AuthEvent::Completed {
        cache_path: "/c".to_owned(),
    }));
    assert!(step.keep_polling);
    assert!(step.release_channel);

    let step = auth_drain_step(true, AuthPoll::Empty);
    assert_eq!(step.event, None);
    assert!(!step.keep_polling);
    assert!(step.release_channel);

    let step = auth_drain_step(false, AuthPoll::Empty);
    assert!(!step.release_channel);

    let step = auth_drain_step(false, AuthPoll::Disconnected);
    assert!(!step.keep_polling);
    assert!(step.release_channel);
}

#[test]
fn screen_ids_follow_routes() {
    assert_eq!(Id::from_screen(Screen::Home), Id::Home);
    assert_eq!(Id::from_screen(Screen::Setup), Id::Setup);
    assert_eq!(Id::from_screen(Screen::Auth), Id::Auth);
    assert_eq!(Id::from_screen(Screen::FatalError), Id::FatalError);
}
