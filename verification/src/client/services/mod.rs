//! The two services as the client calls them.

pub mod calculator;
pub mod echo;

pub use crate::proto::calculator::Operation;
