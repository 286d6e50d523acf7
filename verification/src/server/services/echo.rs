//! The echo service: a message that is not blank comes back unchanged.

use crate::proto::echo::{EchoRequest, EchoResponse};
use crate::rules::{check_echo, echo_objection};
use crate::status::{Status, StatusView};
use vstd::prelude::*;

verus! {

/// What the service answers to a request with the given message: the
/// message itself, unless the rule on echo messages rejects it.
pub open spec fn echo_answer(message: Seq<char>) -> Result<Seq<char>, StatusView> {
    match echo_objection(message) {
        Some(status) => Err(status),
        None => Ok(message),
    }
}

/// The echo service.
#[derive(Debug)]
pub struct EchoServer {}

impl Default for EchoServer {
    fn default() -> (server: EchoServer)
        ensures
            server == (EchoServer {}),
    {
        EchoServer {}
    }
}

impl EchoServer {
    /// Answers one request. The server checks the message whether or not the
    /// caller did.
    pub fn echo(&self, request: EchoRequest) -> (answer: Result<EchoResponse, Status>)
        ensures
            match answer {
                Ok(response) => echo_answer(request@) == Ok::<Seq<char>, StatusView>(response@),
                Err(status) => echo_answer(request@) == Err::<Seq<char>, StatusView>(status@),
            },
    {
        match check_echo(request.message.as_str()) {
            Err(status) => Err(status),
            Ok(_) => Ok(EchoResponse { message: request.message }),
        }
    }
}

} // verus!
