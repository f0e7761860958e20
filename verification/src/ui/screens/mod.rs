//! Per-screen render state and the text each screen shows.

/// Spotify auth status state and text.
pub mod auth;
/// Shared per-screen event handling and frame metadata.
pub mod common;
/// Fatal error screen state and text.
pub mod fatal;
/// Default landing screen state and text.
pub mod home;
/// Setup screen state and text.
pub mod setup;
