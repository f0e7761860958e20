//! Spotify service primitives: how client failures are classified and the
//! retry policy that refreshes auth once and retries transient failures.

/// Error model used by the Spotify service and retry layers.
pub mod error;
/// Retry policy for auth-expired and transient Spotify failures.
pub mod retry;
/// Response-body checks and token-refresh verdicts of the service layer.
pub mod service;
