//! The parts of the system that write a log, and how much each writes.

use vstd::prelude::*;

verus! {

/// A part of the system that writes its own log.
#[derive(Clone, Copy, Debug, PartialEq, Eq, Structural)]
pub enum Component {
    Server,
    Client,
    Test,
}

/// The least severe kind of event that a log still records.
#[derive(Clone, Copy, Debug, PartialEq, Eq, Structural)]
pub enum Level {
    /// Events of general interest and anything more severe.
    Info,
    /// Everything.
    Trace,
}

impl Component {
    /// The name of the component, which its log file begins with.
    pub open spec fn name(self) -> Seq<char> {
        match self {
            Component::Server => "server"@,
            Component::Client => "client"@,
            Component::Test => "test"@,
        }
    }

    /// How much the component records: a test everything, the two others
    /// what is of general interest.
    pub open spec fn level(self) -> Level {
        match self {
            Component::Server => Level::Info,
            Component::Client => Level::Info,
            Component::Test => Level::Trace,
        }
    }

    /// The name of the component and the level of its log.
    pub fn config(&self) -> (config: (&'static str, Level))
        ensures
            config.0@ == self.name(),
            config.1 == self.level(),
    {
        match self {
            Component::Server => ("server", Level::Info),
            Component::Client => ("client", Level::Info),
            Component::Test => ("test", Level::Trace),
        }
    }
}

} // verus!
