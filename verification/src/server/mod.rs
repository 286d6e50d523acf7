//! The server side: what each service answers, and how a server is
//! configured.

pub mod server;
pub mod services;

pub use server::{GrpcServer, GrpcServerBuilder};
