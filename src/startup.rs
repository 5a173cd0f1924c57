//! The order of startup. The shell is a state machine: each event reported by
//! the driver (the code that talks to the host framework) yields the next
//! state and the one action the driver must perform next.
use vstd::prelude::*;
use vstd::string::*;
use crate::plugin::{
    BuildMode, Plugin, STARTUP_PLUGIN_COUNT, log_plugin, log_plugin_for, startup_plugin,
    startup_plugin_seq,
};
use crate::window::{TargetOs, WindowConfig, WindowView, main_window, main_window_view};

verus! {

/// Exit status of a process whose window could not be created.
pub const WINDOW_FAILURE_EXIT_CODE: i32 = 1;

/// Exit status of a process whose run loop ended normally.
pub const CLEAN_EXIT_CODE: i32 = 0;

/// Where startup stands.
#[derive(Clone, Copy, Debug, PartialEq, Eq, Structural)]
pub enum Phase {
    /// Nothing has happened yet.
    Idle,
    /// Waiting for the startup plugin with this index to be registered.
    Registering(usize),
    /// Waiting for the main window to be created.
    BuildingWindow,
    /// Waiting for the logging plugin to be attached.
    AttachingLog,
    /// The run loop owns the process.
    Running,
    /// The process ends with this status.
    Exited(i32),
    /// Startup failed past recovery; the process ends abnormally.
    Aborted,
}

/// What the driver reports after doing what it was last asked to do.
#[derive(Clone, Copy, Debug, PartialEq, Eq, Structural)]
pub enum Event {
    Start,
    PluginRegistered,
    WindowBuilt,
    WindowFailed,
    LogAttached,
    LogAttachFailed,
    RunLoopExited,
    RunLoopFailed,
}

/// What the driver must do next.
#[derive(Debug)]
pub enum Action {
    /// Register this plugin with the application builder.
    RegisterPlugin(Plugin),
    /// Create a window with this configuration.
    BuildWindow(WindowConfig),
    /// Attach this plugin to the running application.
    AttachPlugin(Plugin),
    /// Hand the thread to the framework's run loop.
    EnterRunLoop,
    /// Write the cause of the failure to the error stream, then exit with this
    /// status.
    ExitWithDiagnostic(i32),
    /// Exit with this status.
    Exit(i32),
    /// End the process abnormally, with a message.
    Abort,
    /// Nothing: the event does not fit the current phase.
    Nothing,
}

/// An action, with its window configuration as a view.
pub enum ActionView {
    RegisterPlugin(Plugin),
    BuildWindow(WindowView),
    AttachPlugin(Plugin),
    EnterRunLoop,
    ExitWithDiagnostic(i32),
    Exit(i32),
    Abort,
    Nothing,
}

impl View for Action {
    type V = ActionView;

    open spec fn view(&self) -> ActionView {
        match self {
            Action::RegisterPlugin(p) => ActionView::RegisterPlugin(*p),
            Action::BuildWindow(c) => ActionView::BuildWindow(c@),
            Action::AttachPlugin(p) => ActionView::AttachPlugin(*p),
            Action::EnterRunLoop => ActionView::EnterRunLoop,
            Action::ExitWithDiagnostic(c) => ActionView::ExitWithDiagnostic(*c),
            Action::Exit(c) => ActionView::Exit(*c),
            Action::Abort => ActionView::Abort,
            Action::Nothing => ActionView::Nothing,
        }
    }
}

/// The startup state of the shell.
#[derive(Clone, Copy, Debug, PartialEq, Eq, Structural)]
pub struct Bootstrap {
    pub os: TargetOs,
    pub mode: BuildMode,
    pub phase: Phase,
    /// The main window exists.
    pub window_open: bool,
    /// The logging plugin is attached.
    pub log_attached: bool,
}

/// The state before anything has happened.
pub open spec fn initial(os: TargetOs, mode: BuildMode) -> Bootstrap {
    Bootstrap { os, mode, phase: Phase::Idle, window_open: false, log_attached: false }
}

/// The next state and action when `e` is reported in state `s`.
pub open spec fn next(s: Bootstrap, e: Event) -> (Bootstrap, ActionView) {
    match (s.phase, e) {
        (Phase::Idle, Event::Start) => (
            Bootstrap { phase: Phase::Registering(0), ..s },
            ActionView::RegisterPlugin(startup_plugin_seq()[0]),
        ),
        (Phase::Registering(k), Event::PluginRegistered) => if k + 1 < STARTUP_PLUGIN_COUNT {
            (
                Bootstrap { phase: Phase::Registering((k + 1) as usize), ..s },
                ActionView::RegisterPlugin(startup_plugin_seq()[k + 1]),
            )
        } else {
            (
                Bootstrap { phase: Phase::BuildingWindow, ..s },
                ActionView::BuildWindow(main_window_view(s.os)),
            )
        },
        (Phase::BuildingWindow, Event::WindowBuilt) => match log_plugin_for(s.mode) {
            Some(p) => (
                Bootstrap { phase: Phase::AttachingLog, window_open: true, ..s },
                ActionView::AttachPlugin(p),
            ),
            None => (
                Bootstrap { phase: Phase::Running, window_open: true, ..s },
                ActionView::EnterRunLoop,
            ),
        },
        (Phase::BuildingWindow, Event::WindowFailed) => (
            Bootstrap { phase: Phase::Exited(WINDOW_FAILURE_EXIT_CODE), ..s },
            ActionView::ExitWithDiagnostic(WINDOW_FAILURE_EXIT_CODE),
        ),
        (Phase::AttachingLog, Event::LogAttached) => (
            Bootstrap { phase: Phase::Running, log_attached: true, ..s },
            ActionView::EnterRunLoop,
        ),
        (Phase::AttachingLog, Event::LogAttachFailed) => (
            Bootstrap { phase: Phase::Aborted, ..s },
            ActionView::Abort,
        ),
        (Phase::Running, Event::RunLoopExited) => (
            Bootstrap { phase: Phase::Exited(CLEAN_EXIT_CODE), ..s },
            ActionView::Exit(CLEAN_EXIT_CODE),
        ),
        (Phase::Running, Event::RunLoopFailed) => (
            Bootstrap { phase: Phase::Aborted, ..s },
            ActionView::Abort,
        ),
        (Phase::Aborted, _) => (s, ActionView::Abort),
        _ => (s, ActionView::Nothing),
    }
}

impl Bootstrap {
    /// The state holds together: the flags agree with the phase.
    pub open spec fn wf(self) -> bool {
        match self.phase {
            Phase::Idle | Phase::BuildingWindow => !self.window_open && !self.log_attached,
            Phase::Registering(k) => k < STARTUP_PLUGIN_COUNT && !self.window_open
                && !self.log_attached,
            Phase::AttachingLog => self.mode == BuildMode::Debug && self.window_open
                && !self.log_attached,
            Phase::Running => self.window_open && self.log_attached == (self.mode
                == BuildMode::Debug),
            Phase::Exited(c) => (c == CLEAN_EXIT_CODE && self.window_open && self.log_attached
                == (self.mode == BuildMode::Debug)) || (c == WINDOW_FAILURE_EXIT_CODE
                && !self.window_open && !self.log_attached),
            Phase::Aborted => self.window_open && (self.log_attached ==> self.mode
                == BuildMode::Debug),
        }
    }

    /// A shell built for `os` in `mode`, before startup.
    pub fn new(os: TargetOs, mode: BuildMode) -> (b: Self)
        ensures
            b == initial(os, mode),
            b.wf(),
    {
        Bootstrap { os, mode, phase: Phase::Idle, window_open: false, log_attached: false }
    }

    /// Takes in what the driver reports and says what it must do next.
    pub fn step(&mut self, e: Event) -> (a: Action)
        ensures
            (*final(self), a@) == next(*old(self), e),
            old(self).wf() ==> final(self).wf(),
    {
        match (self.phase, e) {
            (Phase::Idle, Event::Start) => {
                self.phase = Phase::Registering(0);
                Action::RegisterPlugin(startup_plugin(0))
            },
            (Phase::Registering(k), Event::PluginRegistered) => {
                if k < STARTUP_PLUGIN_COUNT - 1 {
                    self.phase = Phase::Registering(k + 1);
                    Action::RegisterPlugin(startup_plugin(k + 1))
                } else {
                    self.phase = Phase::BuildingWindow;
                    Action::BuildWindow(main_window(self.os))
                }
            },
            (Phase::BuildingWindow, Event::WindowBuilt) => {
                self.window_open = true;
                match log_plugin(self.mode) {
                    Some(p) => {
                        self.phase = Phase::AttachingLog;
                        Action::AttachPlugin(p)
                    },
                    None => {
                        self.phase = Phase::Running;
                        Action::EnterRunLoop
                    },
                }
            },
            (Phase::BuildingWindow, Event::WindowFailed) => {
                self.phase = Phase::Exited(WINDOW_FAILURE_EXIT_CODE);
                Action::ExitWithDiagnostic(WINDOW_FAILURE_EXIT_CODE)
            },
            (Phase::AttachingLog, Event::LogAttached) => {
                self.phase = Phase::Running;
                self.log_attached = true;
                Action::EnterRunLoop
            },
            (Phase::AttachingLog, Event::LogAttachFailed) => {
                self.phase = Phase::Aborted;
                Action::Abort
            },
            (Phase::Running, Event::RunLoopExited) => {
                self.phase = Phase::Exited(CLEAN_EXIT_CODE);
                Action::Exit(CLEAN_EXIT_CODE)
            },
            (Phase::Running, Event::RunLoopFailed) => {
                self.phase = Phase::Aborted;
                Action::Abort
            },
            (Phase::Aborted, _) => Action::Abort,
            _ => Action::Nothing,
        }
    }
}

/// The line written to the error stream when the window cannot be created,
/// given the framework's description of the cause.
pub open spec fn window_failure_text(cause: Seq<char>) -> Seq<char> {
    "Failed to build webview window: "@ + cause
}

/// Builds the diagnostic for a window that could not be created.
pub fn window_failure_diagnostic(cause: &str) -> (r: String)
    ensures
        r@ == window_failure_text(cause@),
{
    let mut r = "Failed to build webview window: ".to_owned();
    r.append(cause);
    r
}

} // verus!
