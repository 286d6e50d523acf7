//! The messages of the echo service.

use vstd::prelude::*;

verus! {

/// Asks for a message to be sent back.
#[derive(Debug)]
pub struct EchoRequest {
    pub message: String,
}

/// Carries the message back.
#[derive(Debug)]
pub struct EchoResponse {
    pub message: String,
}

impl View for EchoRequest {
    type V = Seq<char>;

    /// The characters of the message.
    open spec fn view(&self) -> Seq<char> {
        self.message@
    }
}

impl View for EchoResponse {
    type V = Seq<char>;

    /// The characters of the message.
    open spec fn view(&self) -> Seq<char> {
        self.message@
    }
}

} // verus!
