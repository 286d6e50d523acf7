//! The connection-handling server: its lifecycle, what its acceptor and its
//! handlers decide between two polls, and how one request is answered.

pub mod acceptor;
pub mod connection;
pub mod lifecycle;
