//! The configuration of a client.

use crate::status::{Code, Status, StatusView};
use tonic::transport::Endpoint;
use vstd::prelude::*;

verus! {

/// The settings of a connection of `tonic` that has not been opened.
#[verifier::external_type_specification]
#[verifier::external_body]
pub struct ExEndpoint(Endpoint);

/// Whether `tonic` takes `addr` as the address of a server:
/// `Endpoint::from_shared` returns an endpoint for it. The address is read
/// as a URI by the rules of the `http` crate.
pub uninterp spec fn accepted_uri(addr: Seq<char>) -> bool;

/// The message of the error with which `tonic` refuses an address.
pub const INVALID_URI: &'static str = "invalid URI";

/// `Endpoint::from_shared` reads `addr` as a URI and returns the settings of
/// a connection to it. For a text that is no URI it returns an error of the
/// kind "invalid URI", whose display is those two words; the wrapper hands
/// out the display.
#[verifier::external_body]
fn endpoint_from_shared(addr: String) -> (endpoint: Result<Endpoint, String>)
    ensures
        endpoint is Ok <==> accepted_uri(addr@),
        endpoint matches Err(reason) ==> reason@ == INVALID_URI@,
{
    match Endpoint::from_shared(addr) {
        Ok(endpoint) => Ok(endpoint),
        Err(error) => Err(error.to_string()),
    }
}

/// The settings of a client whose connection has not been opened.
#[derive(Debug)]
pub struct GrpcClientBuilder {
    endpoint: Endpoint,
}

impl GrpcClientBuilder {
    /// The builder that was made of what `tonic` said of an address: its
    /// endpoint is kept, its refusal is reported as an internal error with
    /// the reason as the message.
    pub fn from_endpoint(endpoint: Result<Endpoint, String>) -> (builder: Result<
        GrpcClientBuilder,
        Status,
    >)
        ensures
            match endpoint {
                Ok(endpoint) => builder is Ok && builder->Ok_0.endpoint() == endpoint,
                Err(reason) => builder is Err && builder->Err_0@ == (StatusView {
                    code: Code::Internal,
                    message: reason@,
                }),
            },
    {
        match endpoint {
            Ok(endpoint) => Ok(GrpcClientBuilder { endpoint }),
            Err(reason) => Err(Status::new(Code::Internal, reason.as_str())),
        }
    }

    /// A builder for a client of the server at `addr`. The address is read
    /// here, so that one that is no URI fails now and not at the first call.
    pub fn new(addr: &str) -> (builder: Result<GrpcClientBuilder, Status>)
        ensures
            builder is Ok <==> accepted_uri(addr@),
            builder matches Err(status) ==> status@ == (StatusView {
                code: Code::Internal,
                message: INVALID_URI@,
            }),
    {
        GrpcClientBuilder::from_endpoint(endpoint_from_shared(addr.to_owned()))
    }

    /// The endpoint that the builder holds.
    pub closed spec fn endpoint(self) -> Endpoint {
        self.endpoint
    }

    /// Hands out the endpoint, for the transport that will open the
    /// connection.
    pub fn into_endpoint(self) -> (endpoint: Endpoint)
        ensures
            endpoint == self.endpoint(),
    {
        self.endpoint
    }
}

} // verus!
