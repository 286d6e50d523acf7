//! The client side: what is checked before a request leaves, what the caller
//! gets for a reply, and how a client is configured.

pub mod client;
pub mod services;

pub use client::GrpcClientBuilder;
