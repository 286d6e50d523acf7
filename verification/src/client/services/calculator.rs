//! A call of the calculator service, seen from the client: the check before
//! the request is sent, and what the caller gets for the reply.

use crate::number::Double;
use crate::proto::calculator::{CalculateRequest, CalculateResponse, Operation};
use crate::rules::{calculate_objection, check_calculate};
use crate::status::{Code, Status, StatusView};
use vstd::prelude::*;

verus! {

/// The message of the status that tells the caller that the service could
/// not be reached and the call may be tried again.
pub const SERVICE_UNAVAILABLE: &'static str = "service temporarily unavailable";

/// The status that tells the caller that the service could not be reached.
pub open spec fn unavailable() -> StatusView {
    StatusView { code: Code::Unavailable, message: SERVICE_UNAVAILABLE@ }
}

/// The request that is sent for an operation and its operands, or the status
/// with which the call fails before anything is sent.
pub open spec fn calculate_request(first: Double, second: Double, operation: Operation) -> Result<
    CalculateRequest,
    StatusView,
> {
    match calculate_objection(operation, second) {
        Some(status) => Err(status),
        None => Ok(
            CalculateRequest {
                first_number: first,
                second_number: second,
                operation: operation.tag(),
            },
        ),
    }
}

/// The status that the caller gets for a failure with the status `status`:
/// an unavailable service is reported by the library's own words, any other
/// failure as it came.
pub open spec fn failure_for_caller(status: StatusView) -> StatusView {
    if status.code == Code::Unavailable {
        unavailable()
    } else {
        status
    }
}

/// Checks the operands and builds the request that carries them. A division
/// by zero fails here, without a round trip.
pub fn prepare(first: Double, second: Double, operation: Operation) -> (request: Result<
    CalculateRequest,
    Status,
>)
    ensures
        match request {
            Ok(request) => calculate_request(first, second, operation) == Ok::<
                CalculateRequest,
                StatusView,
            >(request),
            Err(status) => calculate_request(first, second, operation) == Err::<
                CalculateRequest,
                StatusView,
            >(status@),
        },
{
    match check_calculate(operation, second) {
        Err(status) => Err(status),
        Ok(_) => Ok(
            CalculateRequest {
                first_number: first,
                second_number: second,
                operation: operation.tag(),
            },
        ),
    }
}

/// What the caller gets for the reply to a calculate request: the result of
/// the response, or the failure, where an unavailable service is told apart
/// from every other failure by its code and reported in fixed words.
pub fn conclude(reply: Result<CalculateResponse, Status>) -> (result: Result<Double, Status>)
    ensures
        match reply {
            Ok(response) => result == Ok::<Double, Status>(response.result),
            Err(status) => result is Err && result->Err_0@ == failure_for_caller(status@),
        },
{
    match reply {
        Ok(response) => Ok(response.result),
        Err(status) => {
            if status.code() == Code::Unavailable {
                Err(Status::new(Code::Unavailable, SERVICE_UNAVAILABLE))
            } else {
                Err(status)
            }
        },
    }
}

} // verus!
