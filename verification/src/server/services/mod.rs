//! The two services as the server answers them.

pub mod calculator;
pub mod echo;

pub use calculator::CalculatorServer;
pub use echo::EchoServer;
