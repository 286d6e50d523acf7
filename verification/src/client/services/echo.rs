//! A call of the echo service, seen from the client: the check before the
//! request is sent, and what the caller gets for the reply.

use crate::proto::echo::{EchoRequest, EchoResponse};
use crate::rules::{check_echo, echo_objection};
use crate::status::{Status, StatusView};
use vstd::prelude::*;

verus! {

/// The request that is sent for `message`, by its message, or the status
/// with which the call fails before anything is sent.
pub open spec fn echo_request(message: Seq<char>) -> Result<Seq<char>, StatusView> {
    match echo_objection(message) {
        Some(status) => Err(status),
        None => Ok(message),
    }
}

/// Checks `message` and builds the request that carries it. A blank message
/// fails here, without a round trip.
pub fn prepare(message: String) -> (request: Result<EchoRequest, Status>)
    ensures
        match request {
            Ok(request) => echo_request(message@) == Ok::<Seq<char>, StatusView>(request@),
            Err(status) => echo_request(message@) == Err::<Seq<char>, StatusView>(status@),
        },
{
    match check_echo(message.as_str()) {
        Err(status) => Err(status),
        Ok(_) => Ok(EchoRequest { message }),
    }
}

/// What the caller gets for the reply to an echo request: the message of the
/// response, or the status of the failure as it came.
pub fn conclude(reply: Result<EchoResponse, Status>) -> (result: Result<String, Status>)
    ensures
        match reply {
            Ok(response) => result is Ok && result->Ok_0@ == response@,
            Err(status) => result is Err && result->Err_0@ == status@,
        },
{
    match reply {
        Ok(response) => Ok(response.message),
        Err(status) => Err(status),
    }
}

} // verus!
