//! What the acceptor does after one poll of its listening socket.

use vstd::prelude::*;

verus! {

/// How long the acceptor waits, in milliseconds, when no connection is
/// pending.
pub const ACCEPT_BACKOFF_MILLIS: u64 = 100;

/// How long `stop` waits, in milliseconds, after the handlers were joined,
/// for the system to release the sockets.
pub const SHUTDOWN_GRACE_MILLIS: u64 = 500;

/// The result of one non-blocking accept.
#[derive(Clone, Copy, Debug, PartialEq, Eq, Structural)]
pub enum AcceptOutcome {
    /// A connection came in.
    Connected,
    /// None is pending.
    WouldBlock,
    /// The accept failed for another reason.
    Failed,
}

/// What the acceptor does next.
#[derive(Clone, Copy, Debug, PartialEq, Eq, Structural)]
pub enum AcceptorAction {
    /// Start a handler for the connection and register its handle.
    Serve,
    /// Sleep for so many milliseconds, then poll again.
    Backoff { millis: u64 },
    /// Record the error and poll again: a failed accept does not end the loop.
    Report,
}

/// The action that follows an accept, as a function of its outcome.
pub open spec fn action_after(outcome: AcceptOutcome) -> AcceptorAction {
    match outcome {
        AcceptOutcome::Connected => AcceptorAction::Serve,
        AcceptOutcome::WouldBlock => AcceptorAction::Backoff { millis: ACCEPT_BACKOFF_MILLIS },
        AcceptOutcome::Failed => AcceptorAction::Report,
    }
}

/// Decides what the acceptor does after one accept.
pub fn after_accept(outcome: AcceptOutcome) -> (action: AcceptorAction)
    ensures
        action == action_after(outcome),
{
    match outcome {
        AcceptOutcome::Connected => AcceptorAction::Serve,
        AcceptOutcome::WouldBlock => AcceptorAction::Backoff { millis: ACCEPT_BACKOFF_MILLIS },
        AcceptOutcome::Failed => AcceptorAction::Report,
    }
}

} // verus!
