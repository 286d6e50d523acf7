//! The two rules on a request. The client applies them before it sends
//! anything, to save the round trip; the server applies them again, since it
//! may be reached by callers that did not.

use crate::number::Double;
use crate::proto::calculator::Operation;
use crate::status::{Code, Status, StatusView};
use crate::text::{blank, is_blank};
use vstd::prelude::*;

verus! {

/// The message of the status that rejects a blank echo message.
pub const EMPTY_MESSAGE: &'static str = "empty message is not allowed";

/// The message of the status that rejects a division by zero.
pub const DIVISION_BY_ZERO: &'static str = "division by zero is not allowed";

/// The message of the status that rejects a tag that stands for no operation.
pub const UNKNOWN_OPERATION: &'static str = "unrecognized operation";

/// A status that rejects a request as invalid input.
pub open spec fn invalid(message: Seq<char>) -> StatusView {
    StatusView { code: Code::InvalidArgument, message }
}

/// What stands against echoing `message`: a blank message is rejected,
/// any other is accepted.
pub open spec fn echo_objection(message: Seq<char>) -> Option<StatusView> {
    if is_blank(message) {
        Some(invalid(EMPTY_MESSAGE@))
    } else {
        None
    }
}

/// What stands against applying `operation` with the second operand
/// `second`: a division by zero is rejected, anything else is accepted.
pub open spec fn calculate_objection(operation: Operation, second: Double) -> Option<StatusView> {
    if operation == Operation::Divide && second.is_zero() {
        Some(invalid(DIVISION_BY_ZERO@))
    } else {
        None
    }
}

/// Checks a message that is to be echoed.
pub fn check_echo(message: &str) -> (verdict: Result<(), Status>)
    ensures
        match verdict {
            Ok(_) => echo_objection(message@) is None,
            Err(status) => echo_objection(message@) == Some(status@),
        },
{
    if blank(message) {
        Err(Status::new(Code::InvalidArgument, EMPTY_MESSAGE))
    } else {
        Ok(())
    }
}

/// Checks an operation against its second operand, before anything is
/// computed.
pub fn check_calculate(operation: Operation, second: Double) -> (verdict: Result<(), Status>)
    ensures
        match verdict {
            Ok(_) => calculate_objection(operation, second) is None,
            Err(status) => calculate_objection(operation, second) == Some(status@),
        },
{
    if operation == Operation::Divide && second.is_zero() {
        Err(Status::new(Code::InvalidArgument, DIVISION_BY_ZERO))
    } else {
        Ok(())
    }
}

} // verus!
