//! Verified core of a live-stream notifier.
//!
//! The library holds everything with design content: the JSON envelope
//! parsing for the platform's wire format, the API client's token
//! lifecycle and error classification, the liveness diff that turns
//! snapshots into edge-triggered "went live" events, and the monitor
//! state machine that drives one polling session. The surrounding
//! program supplies the HTTP transport, the timer and the desktop
//! notification delivery, and feeds their outcomes back in as events.

pub mod json;
pub mod monitor;
pub mod notifications;
pub mod settings;
pub mod tracker;
pub mod twitch_api;
