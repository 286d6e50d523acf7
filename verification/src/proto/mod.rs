//! The messages of the two services.

pub mod calculator;
pub mod echo;
