//! The configuration of a server, and how the ways in which serving can end
//! are reported.

use crate::address::{is_socket_address, reads_as_socket_address};
use crate::status::{Code, Status, StatusView};
use tokio::sync::oneshot::{Receiver, Sender};
use vstd::prelude::*;

verus! {

/// The sending half of a one-shot channel of `tokio`.
#[verifier::external_type_specification]
#[verifier::external_body]
#[verifier::reject_recursive_types(T)]
pub struct ExSender<T>(Sender<T>);

/// The receiving half of a one-shot channel of `tokio`.
#[verifier::external_type_specification]
#[verifier::external_body]
#[verifier::reject_recursive_types(T)]
pub struct ExReceiver<T>(Receiver<T>);

/// What awaiting the receiving half gives when the sender was dropped. It is
/// declared because the receiving half is a future of it; the library reads
/// none.
#[verifier::external_type_specification]
#[verifier::external_body]
pub struct ExRecvError(tokio::sync::oneshot::error::RecvError);

/// `tokio::sync::oneshot::channel` makes a channel that carries one value:
/// the two halves it returns belong together. Nothing is stated of them:
/// the library hands them on and reads neither.
#[verifier::external_body]
fn shutdown_channel() -> (halves: (Sender<()>, Receiver<()>)) {
    tokio::sync::oneshot::channel()
}

/// The message of the status that `build` fails with when no address was set.
pub const MISSING_ADDRESS: &'static str = "Server address must be provided";

/// The message of the status that refuses an address that is no socket
/// address.
pub const INVALID_ADDRESS: &'static str = "invalid server address format";

/// What the message of a failed set-up of logging begins with.
pub const LOGGING_FAILED: &'static str = "Failed to initialize logging: ";

/// What the message of a failed transport begins with.
pub const SERVER_FAILED: &'static str = "server error: ";

/// Collects the settings of a server.
#[derive(Debug)]
pub struct GrpcServerBuilder {
    addr: Option<String>,
}

/// A configured server: the address it will listen on, which is a socket
/// address, and the receiving half of the channel on which its shutdown is
/// asked for.
#[derive(Debug)]
pub struct GrpcServer {
    addr: String,
    shutdown: Receiver<()>,
}

/// How serving ended.
#[derive(Debug)]
pub enum ServeEnd {
    /// Logging could not be set up; the text says why.
    LoggingFailed(String),
    /// The transport did not take the address of the server.
    AddressRejected,
    /// The shutdown was asked for, and the calls that were under way ended.
    ShutDown,
    /// The transport failed; the text says why.
    TransportFailed(String),
}

impl View for GrpcServerBuilder {
    type V = Option<Seq<char>>;

    /// The address that was set, if one was.
    closed spec fn view(&self) -> Option<Seq<char>> {
        match self.addr {
            Some(addr) => Some(addr@),
            None => None,
        }
    }
}

impl View for GrpcServer {
    type V = Seq<char>;

    /// The address of the server. The receiving half that the server holds
    /// is `receiver()`.
    closed spec fn view(&self) -> Seq<char> {
        self.addr@
    }
}

impl Default for GrpcServerBuilder {
    fn default() -> (builder: GrpcServerBuilder)
        ensures
            builder@ is None,
    {
        GrpcServerBuilder { addr: None }
    }
}

impl GrpcServerBuilder {
    /// A builder with no address set.
    pub fn new() -> (builder: GrpcServerBuilder)
        ensures
            builder@ is None,
    {
        GrpcServerBuilder { addr: None }
    }

    /// Sets the address, in place of one set before.
    pub fn address(self, addr: &str) -> (builder: GrpcServerBuilder)
        ensures
            builder@ == Some(addr@),
    {
        GrpcServerBuilder { addr: Some(addr.to_owned()) }
    }

    /// Builds the server and the sender on which its shutdown is asked for.
    /// Without an address there is nothing to build, and an address that is
    /// no socket address is refused here, before anything runs. The sender
    /// that is returned is the one whose signal the server receives.
    pub fn build(self) -> (built: Result<(GrpcServer, Sender<()>), Status>)
        ensures
            match self@ {
                Some(addr) => built is Ok <==> is_socket_address(addr),
                None => built is Err,
            },
            built matches Ok(made) ==> self@ == Some(made.0@),
            built matches Err(status) ==> status@ == (StatusView {
                code: Code::InvalidArgument,
                message: if self@ is None {
                    MISSING_ADDRESS@
                } else {
                    INVALID_ADDRESS@
                },
            }),
    {
        match self.addr {
            None => Err(Status::new(Code::InvalidArgument, MISSING_ADDRESS)),
            Some(addr) => GrpcServer::assemble(addr, shutdown_channel()),
        }
    }
}

impl GrpcServer {
    /// The address of a server is a socket address.
    #[verifier::type_invariant]
    spec fn address_is_socket_address(self) -> bool {
        is_socket_address(self.addr@)
    }

    /// The receiving half that the server holds.
    pub closed spec fn receiver(self) -> Receiver<()> {
        self.shutdown
    }

    /// A builder with no address set.
    pub fn builder() -> (builder: GrpcServerBuilder)
        ensures
            builder@ is None,
    {
        GrpcServerBuilder::new()
    }

    /// Makes a server of an address and the two halves of a shutdown
    /// channel: the server keeps the receiving half, and the sending half
    /// goes to the caller. An address that is no socket address is refused.
    pub fn assemble(addr: String, halves: (Sender<()>, Receiver<()>)) -> (built: Result<
        (GrpcServer, Sender<()>),
        Status,
    >)
        ensures
            built is Ok <==> is_socket_address(addr@),
            built matches Ok(made) ==> made.0@ == addr@ && made.0.receiver() == halves.1 && made.1
                == halves.0,
            built matches Err(status) ==> status@ == (StatusView {
                code: Code::InvalidArgument,
                message: INVALID_ADDRESS@,
            }),
    {
        if reads_as_socket_address(addr.as_str()) {
            Ok((GrpcServer { addr, shutdown: halves.1 }, halves.0))
        } else {
            Err(Status::new(Code::InvalidArgument, INVALID_ADDRESS))
        }
    }

    /// The address of the server.
    pub fn addr(&self) -> (addr: &str)
        ensures
            addr@ == self@,
            is_socket_address(addr@),
    {
        proof {
            use_type_invariant(self);
        }
        self.addr.as_str()
    }

    /// Takes the server apart, for the transport that will serve it: the
    /// address and the receiving half of the shutdown channel.
    pub fn into_parts(self) -> (parts: (String, Receiver<()>))
        ensures
            parts.0@ == self@,
            parts.1 == self.receiver(),
            is_socket_address(parts.0@),
    {
        proof {
            use_type_invariant(&self);
        }
        (self.addr, self.shutdown)
    }
}

/// What `serve` returns for each way in which serving can end.
pub open spec fn serve_result(end: ServeEnd) -> Result<(), StatusView> {
    match end {
        ServeEnd::LoggingFailed(reason) => Err(
            StatusView { code: Code::Internal, message: LOGGING_FAILED@ + reason@ },
        ),
        ServeEnd::AddressRejected => Err(
            StatusView { code: Code::InvalidArgument, message: INVALID_ADDRESS@ },
        ),
        ServeEnd::ShutDown => Ok(()),
        ServeEnd::TransportFailed(reason) => Err(
            StatusView { code: Code::Internal, message: SERVER_FAILED@ + reason@ },
        ),
    }
}

/// Tells how the end of serving is reported to the caller: a shutdown that
/// was asked for is no error, an address that the transport did not take is
/// invalid input, and a
/// failure of logging or of the transport is an internal error that quotes
/// the reason.
pub fn conclude(end: ServeEnd) -> (result: Result<(), Status>)
    ensures
        match result {
            Ok(_) => serve_result(end) is Ok,
            Err(status) => serve_result(end) == Err::<(), StatusView>(status@),
        },
{
    match end {
        ServeEnd::LoggingFailed(reason) => Err(Status::prefixed(Code::Internal, LOGGING_FAILED, reason.as_str())),
        ServeEnd::AddressRejected => Err(Status::new(Code::InvalidArgument, INVALID_ADDRESS)),
        ServeEnd::ShutDown => Ok(()),
        ServeEnd::TransportFailed(reason) => Err(Status::prefixed(Code::Internal, SERVER_FAILED, reason.as_str())),
    }
}

} // verus!
