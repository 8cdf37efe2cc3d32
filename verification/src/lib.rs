//! Event-client core for a Wayland compositor status bar.
//!
//! The library contains the verified heart of the bar: the line-oriented
//! protocol parser, the pending-state aggregator with its debounce flush,
//! the connection state machine that survives compositor restarts, and the
//! non-blocking publisher that hands update events to the UI consumer.
//! Windowing and rendering live outside; they only consume what this
//! library emits.
use vstd::prelude::*;

pub mod client;
pub mod clients;
pub mod config;
pub mod connection;
pub mod desktop;
pub mod pending;
pub mod protocol;
pub mod publish;
pub mod socket;
pub mod text;
pub mod widget;
pub mod workspaces;

verus! {

/// Length of the debounce window in milliseconds: raw protocol events that
/// arrive within one window collapse into at most one outbound event per
/// category.
pub const DEBOUNCE_MS: u64 = 50;

/// Fixed delay before any reconnection attempt, in milliseconds.  The delay
/// is deliberately constant: the compositor socket reappears quickly after a
/// restart, so a short constant delay bounds reconnection latency without
/// backoff logic.
pub const RETRY_DELAY_MS: u64 = 1000;

} // verus!
