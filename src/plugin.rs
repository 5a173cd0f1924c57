//! The plugins the shell registers with the host framework, and the build mode
//! that decides whether logging is one of them.
use vstd::prelude::*;

verus! {

/// Number of plugins registered before any window exists.
pub const STARTUP_PLUGIN_COUNT: usize = 3;

/// Whether the shell was built with debug assertions.
#[derive(Clone, Copy, Debug, PartialEq, Eq, Structural)]
pub enum BuildMode {
    Debug,
    Release,
}

/// The most verbose level of records a logger lets through.
#[derive(Clone, Copy, Debug, PartialEq, Eq, Structural)]
pub enum LogLevel {
    Off,
    Error,
    Warn,
    Info,
    Debug,
    Trace,
}

/// A framework plugin, with the settings the shell gives it.
#[derive(Clone, Copy, Debug, PartialEq, Eq, Structural)]
pub enum Plugin {
    /// Suppresses the reload gesture in the webview.
    PreventReload,
    /// Opens links and files with the system's handlers.
    Opener,
    /// Reports facts about the operating system to the web content.
    OsInfo,
    /// Writes log records at the given level and below.
    Log(LogLevel),
}

/// The plugins registered before the window is created, in order.
pub open spec fn startup_plugin_seq() -> Seq<Plugin> {
    seq![Plugin::PreventReload, Plugin::Opener, Plugin::OsInfo]
}

/// The logging plugin attached after the window exists: at info level in a
/// debug build, none in a release build.
pub open spec fn log_plugin_for(mode: BuildMode) -> Option<Plugin> {
    match mode {
        BuildMode::Debug => Some(Plugin::Log(LogLevel::Info)),
        BuildMode::Release => None,
    }
}

/// The `i`-th plugin to register at startup.
pub fn startup_plugin(i: usize) -> (p: Plugin)
    requires
        i < STARTUP_PLUGIN_COUNT,
    ensures
        p == startup_plugin_seq()[i as int],
{
    if i == 0 {
        Plugin::PreventReload
    } else if i == 1 {
        Plugin::Opener
    } else {
        Plugin::OsInfo
    }
}

/// The plugins to register at startup, in order.
pub fn startup_plugins() -> (ps: Vec<Plugin>)
    ensures
        ps@ == startup_plugin_seq(),
{
    let mut ps: Vec<Plugin> = Vec::new();
    let mut i: usize = 0;
    while i < STARTUP_PLUGIN_COUNT
        invariant
            i <= STARTUP_PLUGIN_COUNT,
            ps@ == startup_plugin_seq().take(i as int),
        decreases STARTUP_PLUGIN_COUNT - i,
    {
        ps.push(startup_plugin(i));
        assert(startup_plugin_seq().take(i + 1) == startup_plugin_seq().take(i as int).push(
            startup_plugin_seq()[i as int],
        ));
        i = i + 1;
    }
    assert(startup_plugin_seq().take(3) == startup_plugin_seq());
    ps
}

/// The logging plugin to attach in `mode`, if any.
pub fn log_plugin(mode: BuildMode) -> (p: Option<Plugin>)
    ensures
        p == log_plugin_for(mode),
{
    match mode {
        BuildMode::Debug => Some(Plugin::Log(LogLevel::Info)),
        BuildMode::Release => None,
    }
}

} // verus!
