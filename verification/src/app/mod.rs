//! Application state: actions, messages, fatal errors, routing and the reducer.
//!
//! The event loop that drives the terminal lives in the application shell and
//! feeds every decision through this module.

/// State transition commands produced by app messages.
pub mod action;
/// Decisions on auth worker events: the action each one triggers and how the
/// worker's channel is drained.
pub mod auth_events;
/// Fatal error model and adapters from terminal auth failures.
pub mod fatal;
/// Message types emitted by UI components.
pub mod msg;
/// Screen routing primitives and navigation state.
pub mod router;
/// Mutable app state and reducer-style action application.
pub mod state;
