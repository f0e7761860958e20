use spotuify::client::{ClientFailure, ClientFailureKind};
use spotuify::spotify::error::SpotifyServiceError;
use spotuify::spotify::retry::{is_auth_expired_error, run_with_refresh_retry};

#[derive(Debug)]
enum TestError {
    Auth,
    Other,
}

fn map_test_error(err: TestError) -> SpotifyServiceError {
    SpotifyServiceError::Spotify(format!("{err:?}"))
}

#[test]
fn spotify_retry_helper_returns_success_without_refresh() {
    let mut attempts = 0;
    let mut refreshes = 0;

    let result = run_with_refresh_retry(
        || {
            attempts += 1;
            Ok::<_, TestError>("ok")
        },
        || {
            refreshes += 1;
            Ok(())
        },
        |err| matches!(err, TestError::Auth),
        map_test_error,
    )
    .expect("successful request should pass through");

    assert_eq!(result, "ok");
    assert_eq!(attempts, 1);
    assert_eq!(refreshes, 0);
}

#[test]
fn spotify_retry_helper_refreshes_and_retries_once_for_auth_error() {
    let mut attempts = 0;
    let mut refreshes = 0;

    let result = run_with_refresh_retry(
        || {
            attempts += 1;
            if attempts == 1 {
                Err(TestError::Auth)
            } else {
                Ok("ok")
            }
        },
        || {
            refreshes += 1;
            Ok(())
        },
        |err| matches!(err, TestError::Auth),
        map_test_error,
    )
    .expect("second request should pass after refresh");

    assert_eq!(result, "ok");
    assert_eq!(attempts, 2);
    assert_eq!(refreshes, 1);
}

#[test]
fn spotify_retry_helper_does_not_refresh_non_auth_errors() {
    let mut refreshes = 0;

    let err = run_with_refresh_retry(
        || Err::<(), _>(TestError::Other),
        || {
            refreshes += 1;
            Ok(())
        },
        |err| matches!(err, TestError::Auth),
        map_test_error,
    )
    .expect_err("non-auth error should be returned");

    assert_eq!(err, SpotifyServiceError::Spotify("Other".to_owned()));
    assert_eq!(refreshes, 0);
}

#[test]
fn spotify_retry_helper_returns_reauth_after_repeated_auth_error() {
    let mut attempts = 0;
    let mut refreshes = 0;

    let err = run_with_refresh_retry(
        || {
            attempts += 1;
            Err::<(), _>(TestError::Auth)
        },
        || {
            refreshes += 1;
            Ok(())
        },
        |err| matches!(err, TestError::Auth),
        map_test_error,
    )
    .expect_err("repeated auth error should require reauthorization");

    assert!(matches!(
        err,
        SpotifyServiceError::ReauthorizationRequired(_)
    ));
    assert_eq!(attempts, 2);
    assert_eq!(refreshes, 1);
}

#[test]
fn spotify_invalid_token_is_auth_expired_error() {
    assert!(is_auth_expired_error(&ClientFailure {
        kind: ClientFailureKind::InvalidToken,
        display: "Token is not valid".to_owned(),
    }));
}
