//! A small remote-procedure service with two operations, a message echo and a
//! four-function calculator: the rules both sides of a call apply to a
//! request, the configuration of the endpoints, and the lifecycle of the
//! connection-handling server.

pub mod address;
pub mod client;
pub mod exchange;
pub mod logging;
pub mod number;
pub mod proto;
pub mod rules;
pub mod server;
pub mod status;
pub mod tcp;
pub mod text;

pub use client::GrpcClientBuilder;
pub use server::{GrpcServer, GrpcServerBuilder};
