//! How the log of each component is set up. The library says what is to be
//! installed; installing it, once for the process, is left to the program.

pub mod types;

pub use types::{Component, Level};

use vstd::prelude::*;

verus! {

/// The directory that the log files are written to.
pub const LOG_DIRECTORY: &'static str = "logs";

/// What to install for a component: one file that is never rotated, in
/// `directory`, whose name begins with `file_prefix`, to which events of
/// `level` and above are written, without colour codes and without the
/// target of the event.
#[derive(Clone, Copy, Debug)]
pub struct LogSettings {
    pub directory: &'static str,
    pub file_prefix: &'static str,
    pub level: Level,
    pub ansi: bool,
    pub with_target: bool,
}

/// Whether `settings` are those of `component`.
pub open spec fn settings_of(component: Component, settings: LogSettings) -> bool {
    &&& settings.directory@ == LOG_DIRECTORY@
    &&& settings.file_prefix@ == component.name()
    &&& settings.level == component.level()
    &&& !settings.ansi
    &&& !settings.with_target
}

/// The settings of the log of `component`.
pub fn init(component: Component) -> (settings: LogSettings)
    ensures
        settings_of(component, settings),
{
    let (name, level) = component.config();
    LogSettings {
        directory: LOG_DIRECTORY,
        file_prefix: name,
        level,
        ansi: false,
        with_target: false,
    }
}

/// The settings of the log of the server.
pub fn init_server() -> (settings: LogSettings)
    ensures
        settings_of(Component::Server, settings),
{
    init(Component::Server)
}

/// The settings of the log of the client.
pub fn init_client() -> (settings: LogSettings)
    ensures
        settings_of(Component::Client, settings),
{
    init(Component::Client)
}

/// The settings of the log of a test.
pub fn init_test() -> (settings: LogSettings)
    ensures
        settings_of(Component::Test, settings),
{
    init(Component::Test)
}

} // verus!
