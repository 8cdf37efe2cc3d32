//! The connection lifecycle as a state machine.
//!
//! Whenever a valid socket path exists, exactly one active subscription is
//! being read, and every failure recovers automatically: resolve the socket
//! path, connect, subscribe, stream; any failure falls back to resolving
//! after a fixed delay, forever.  The machine is a pure step function from
//! phase and event to next phase and action; the surrounding process
//! performs the actions and feeds back what happened.
use vstd::prelude::*;

verus! {

/// Where the connection lifecycle stands.
#[derive(Debug, Clone, Copy, PartialEq, Eq, Structural)]
pub enum ConnPhase {
    /// Computing the socket path from the runtime environment.
    Resolving,
    /// Opening the socket at the resolved path.
    Connecting,
    /// Writing the fixed subscription request.
    Subscribing,
    /// Reading protocol lines.
    Streaming,
}

/// What the outside world reported back.
#[derive(Debug, Clone, Copy, PartialEq, Eq, Structural)]
pub enum ConnEvent {
    /// A socket path was computed and exists.
    Resolved,
    /// No socket path could be computed, or none exists yet.
    ResolveFailed,
    /// The socket opened.
    Connected,
    /// The socket could not be opened.
    ConnectFailed,
    /// The subscription request was written.
    Subscribed,
    /// Writing the subscription request failed.
    SubscribeFailed,
    /// One line arrived on the stream.
    LineReceived,
    /// The peer closed the stream.
    StreamEnded,
    /// Reading from the stream failed.
    ReadFailed,
}

/// What to do next.
#[derive(Debug, Clone, Copy, PartialEq, Eq, Structural)]
pub enum ConnAction {
    /// Open the socket at the resolved path.
    OpenSocket,
    /// Write the subscription request.
    WriteSubscription,
    /// Wait for the next line.
    ReadNextLine,
    /// Sleep for the fixed retry delay, then resolve again.
    RetryAfterDelay,
    /// The event does not belong to the current phase; do nothing.
    Ignore,
}

/// The transition table.  Every failure, wherever it strikes, funnels back
/// to `Resolving` behind the same fixed delay; there is no retry limit.
pub open spec fn spec_step(p: ConnPhase, e: ConnEvent) -> (ConnPhase, ConnAction) {
    match (p, e) {
        (ConnPhase::Resolving, ConnEvent::Resolved) => (
            ConnPhase::Connecting,
            ConnAction::OpenSocket,
        ),
        (ConnPhase::Resolving, ConnEvent::ResolveFailed) => (
            ConnPhase::Resolving,
            ConnAction::RetryAfterDelay,
        ),
        (ConnPhase::Connecting, ConnEvent::Connected) => (
            ConnPhase::Subscribing,
            ConnAction::WriteSubscription,
        ),
        (ConnPhase::Connecting, ConnEvent::ConnectFailed) => (
            ConnPhase::Resolving,
            ConnAction::RetryAfterDelay,
        ),
        (ConnPhase::Subscribing, ConnEvent::Subscribed) => (
            ConnPhase::Streaming,
            ConnAction::ReadNextLine,
        ),
        (ConnPhase::Subscribing, ConnEvent::SubscribeFailed) => (
            ConnPhase::Resolving,
            ConnAction::RetryAfterDelay,
        ),
        (ConnPhase::Streaming, ConnEvent::LineReceived) => (
            ConnPhase::Streaming,
            ConnAction::ReadNextLine,
        ),
        (ConnPhase::Streaming, ConnEvent::StreamEnded) => (
            ConnPhase::Resolving,
            ConnAction::RetryAfterDelay,
        ),
        (ConnPhase::Streaming, ConnEvent::ReadFailed) => (
            ConnPhase::Resolving,
            ConnAction::RetryAfterDelay,
        ),
        _ => (p, ConnAction::Ignore),
    }
}

/// Executable counterpart of [`spec_step`].
pub fn step(p: ConnPhase, e: ConnEvent) -> (r: (ConnPhase, ConnAction))
    ensures
        r == spec_step(p, e),
{
    match (p, e) {
        (ConnPhase::Resolving, ConnEvent::Resolved) => (
            ConnPhase::Connecting,
            ConnAction::OpenSocket,
        ),
        (ConnPhase::Resolving, ConnEvent::ResolveFailed) => (
            ConnPhase::Resolving,
            ConnAction::RetryAfterDelay,
        ),
        (ConnPhase::Connecting, ConnEvent::Connected) => (
            ConnPhase::Subscribing,
            ConnAction::WriteSubscription,
        ),
        (ConnPhase::Connecting, ConnEvent::ConnectFailed) => (
            ConnPhase::Resolving,
            ConnAction::RetryAfterDelay,
        ),
        (ConnPhase::Subscribing, ConnEvent::Subscribed) => (
            ConnPhase::Streaming,
            ConnAction::ReadNextLine,
        ),
        (ConnPhase::Subscribing, ConnEvent::SubscribeFailed) => (
            ConnPhase::Resolving,
            ConnAction::RetryAfterDelay,
        ),
        (ConnPhase::Streaming, ConnEvent::LineReceived) => (
            ConnPhase::Streaming,
            ConnAction::ReadNextLine,
        ),
        (ConnPhase::Streaming, ConnEvent::StreamEnded) => (
            ConnPhase::Resolving,
            ConnAction::RetryAfterDelay,
        ),
        (ConnPhase::Streaming, ConnEvent::ReadFailed) => (
            ConnPhase::Resolving,
            ConnAction::RetryAfterDelay,
        ),
        _ => (p, ConnAction::Ignore),
    }
}

/// Reconnection: a socket close during streaming returns the machine to
/// resolving, and a later successful resolve, connect and subscribe reach
/// the stream again — no process restart is involved.
pub proof fn lemma_reconnect_resumes_subscription()
    ensures
        spec_step(ConnPhase::Streaming, ConnEvent::StreamEnded) == (
            ConnPhase::Resolving,
            ConnAction::RetryAfterDelay,
        ),
        spec_step(ConnPhase::Resolving, ConnEvent::Resolved) == (
            ConnPhase::Connecting,
            ConnAction::OpenSocket,
        ),
        spec_step(ConnPhase::Connecting, ConnEvent::Connected) == (
            ConnPhase::Subscribing,
            ConnAction::WriteSubscription,
        ),
        spec_step(ConnPhase::Subscribing, ConnEvent::Subscribed) == (
            ConnPhase::Streaming,
            ConnAction::ReadNextLine,
        ),
{
}

/// Every failure event leads back to resolving with the fixed retry delay:
/// no failure is fatal to the client.
pub proof fn lemma_failures_retry(p: ConnPhase, e: ConnEvent)
    requires
        spec_step(p, e).1 != ConnAction::Ignore,
        e is ResolveFailed || e is ConnectFailed || e is SubscribeFailed || e is StreamEnded
            || e is ReadFailed,
    ensures
        spec_step(p, e) == (ConnPhase::Resolving, ConnAction::RetryAfterDelay),
{
}

} // verus!
