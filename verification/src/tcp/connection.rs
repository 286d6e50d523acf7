//! One connection: how a request that was read is answered, and what the
//! handler does between two cycles.

use crate::proto::calculator::CalculateRequest;
use crate::proto::echo::{EchoRequest, EchoResponse};
use crate::server::services::calculator::{calculate_answer, Calculation, CalculatorServer};
use crate::server::services::echo::{echo_answer, EchoServer};
use crate::status::Status;
use vstd::prelude::*;

verus! {

/// The size, in bytes, of the buffer that one read fills at most. A message
/// is taken to arrive within one read.
pub const READ_BUFFER_SIZE: usize = 1024;

/// How long a handler waits, in milliseconds, when its connection has
/// nothing to read.
pub const HANDLER_BACKOFF_MILLIS: u64 = 10;

/// What one read gave, once the bytes were decoded.
#[derive(Debug)]
pub enum Incoming {
    /// No bytes: the peer closed the connection in good order.
    Closed,
    /// Bytes that do not decode as a message.
    Malformed,
    /// A message that holds no request.
    Empty,
    /// An echo request.
    Echo(EchoRequest),
    /// A calculate request.
    Calculate(CalculateRequest),
}

/// Why nothing is sent back.
#[derive(Debug)]
pub enum Skipped {
    /// The bytes did not decode.
    Malformed,
    /// The message held no request.
    Empty,
    /// The service rejected the request with this status.
    Rejected(Status),
}

/// What the handler does with what it read.
#[derive(Debug)]
pub enum Handled {
    /// Stop: the peer is gone. This is no error.
    Disconnect,
    /// Record the reason and send nothing; the connection stays open for the
    /// next message.
    Skip(Skipped),
    /// Send this echo response.
    Echo(EchoResponse),
    /// Carry out this calculation and send its result.
    Calculate(Calculation),
}

/// The result of one cycle of a handler: a read, and the answer if there was
/// a request.
#[derive(Clone, Copy, Debug, PartialEq, Eq, Structural)]
pub enum CycleOutcome {
    /// A message was dealt with: answered or skipped.
    Served,
    /// The peer closed the connection.
    Disconnected,
    /// Nothing to read yet.
    WouldBlock,
    /// The read or the write failed for another reason; a write that sent
    /// only part of a response counts as one.
    Failed,
}

/// What a handler does next.
#[derive(Clone, Copy, Debug, PartialEq, Eq, Structural)]
pub enum HandlerAction {
    /// Read again.
    Continue,
    /// Sleep for so many milliseconds, then read again.
    Backoff { millis: u64 },
    /// Leave the loop and end.
    Exit,
}

/// The action that follows a cycle, as a function of the server's running
/// flag and of the cycle's outcome. A handler ends when the server no longer
/// runs, when its peer is gone and when its connection fails; a message that
/// was skipped does not end it.
pub open spec fn action_after(running: bool, outcome: CycleOutcome) -> HandlerAction {
    if !running {
        HandlerAction::Exit
    } else {
        match outcome {
            CycleOutcome::Served => HandlerAction::Continue,
            CycleOutcome::WouldBlock => HandlerAction::Backoff { millis: HANDLER_BACKOFF_MILLIS },
            CycleOutcome::Disconnected => HandlerAction::Exit,
            CycleOutcome::Failed => HandlerAction::Exit,
        }
    }
}

/// The outcome of a cycle in which the handler dealt with what it read: the
/// peer is gone, or a message was served, answered or skipped.
pub open spec fn outcome_of(handled: Handled) -> CycleOutcome {
    match handled {
        Handled::Disconnect => CycleOutcome::Disconnected,
        Handled::Skip(_) => CycleOutcome::Served,
        Handled::Echo(_) => CycleOutcome::Served,
        Handled::Calculate(_) => CycleOutcome::Served,
    }
}

/// Decides what the handler does with what it read. A request goes to its
/// service, and the answer is sent back in the response of the same kind.
///
/// A request that the service rejects is skipped like a message that did not
/// decode: the reason is recorded, nothing is sent, and the connection stays
/// open. This is the library's decision. The protocol has no response that
/// could carry a status to the peer, so a caller that needs the reason uses
/// the RPC services, which report it.
pub fn handle(incoming: Incoming) -> (handled: Handled)
    ensures
        match incoming {
            Incoming::Closed => handled is Disconnect,
            Incoming::Malformed => handled matches Handled::Skip(Skipped::Malformed),
            Incoming::Empty => handled matches Handled::Skip(Skipped::Empty),
            Incoming::Echo(request) => match echo_answer(request@) {
                Ok(message) => handled matches Handled::Echo(response) && response@ == message,
                Err(status) => handled matches Handled::Skip(Skipped::Rejected(rejection))
                    && rejection@ == status,
            },
            Incoming::Calculate(request) => match calculate_answer(request) {
                Ok(calculation) => handled matches Handled::Calculate(planned) && planned
                    == calculation,
                Err(status) => handled matches Handled::Skip(Skipped::Rejected(rejection))
                    && rejection@ == status,
            },
        },
{
    match incoming {
        Incoming::Closed => Handled::Disconnect,
        Incoming::Malformed => Handled::Skip(Skipped::Malformed),
        Incoming::Empty => Handled::Skip(Skipped::Empty),
        Incoming::Echo(request) => match (EchoServer {}).echo(request) {
            Ok(response) => Handled::Echo(response),
            Err(status) => Handled::Skip(Skipped::Rejected(status)),
        },
        Incoming::Calculate(request) => match (CalculatorServer {}).calculate(request) {
            Ok(calculation) => Handled::Calculate(calculation),
            Err(status) => Handled::Skip(Skipped::Rejected(status)),
        },
    }
}

/// Tells the outcome of a cycle whose read and write went well, from what the
/// handler did: only a peer that is gone ends the connection.
pub fn cycle_outcome(handled: &Handled) -> (outcome: CycleOutcome)
    ensures
        outcome == outcome_of(*handled),
{
    match handled {
        Handled::Disconnect => CycleOutcome::Disconnected,
        Handled::Skip(_) => CycleOutcome::Served,
        Handled::Echo(_) => CycleOutcome::Served,
        Handled::Calculate(_) => CycleOutcome::Served,
    }
}

/// Decides what a handler does after one cycle.
pub fn after_cycle(running: bool, outcome: CycleOutcome) -> (action: HandlerAction)
    ensures
        action == action_after(running, outcome),
{
    if !running {
        HandlerAction::Exit
    } else {
        match outcome {
            CycleOutcome::Served => HandlerAction::Continue,
            CycleOutcome::WouldBlock => HandlerAction::Backoff { millis: HANDLER_BACKOFF_MILLIS },
            CycleOutcome::Disconnected => HandlerAction::Exit,
            CycleOutcome::Failed => HandlerAction::Exit,
        }
    }
}

} // verus!
