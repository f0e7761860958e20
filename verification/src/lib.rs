//! `spotuify`: the verified core of a terminal Spotify client with local OAuth
//! callback authentication.
//!
//! - [`app`] holds the screen router and the state that actions update.
//! - [`auth`] holds the Spotify PKCE flow's decisions and validation.
//! - [`config`] turns the user's config file into a startup state.
//! - [`spotify`] classifies Spotify failures and drives the retry policy.
//! - [`ui`] holds each screen's render state and text.

pub mod app;
pub mod auth;
pub mod client;
pub mod config;
pub mod text;
pub mod ui;
pub mod spotify;
pub mod urls;
