//! What holds of every run of startup, whatever the driver reports.
use vstd::prelude::*;
use crate::plugin::{BuildMode, LogLevel, Plugin, STARTUP_PLUGIN_COUNT, startup_plugin_seq};
use crate::startup::{
    ActionView, Bootstrap, Event, Phase, WINDOW_FAILURE_EXIT_CODE, initial, next,
};
use crate::window::{TargetOs, TitleBarStyle, WindowView, main_window_view};

verus! {

/// The state reached, and the actions asked for, when `events` are reported
/// one after another from state `s`.
pub open spec fn run_from(s: Bootstrap, events: Seq<Event>) -> (Bootstrap, Seq<ActionView>)
    decreases events.len(),
{
    if events.len() == 0 {
        (s, Seq::empty())
    } else {
        let (t, acts) = run_from(s, events.drop_last());
        let (u, a) = next(t, events.last());
        (u, acts.push(a))
    }
}

/// The plugins that `acts` ask to register, in order.
pub open spec fn registered_plugins(acts: Seq<ActionView>) -> Seq<Plugin>
    decreases acts.len(),
{
    if acts.len() == 0 {
        Seq::empty()
    } else {
        let r = registered_plugins(acts.drop_last());
        match acts.last() {
            ActionView::RegisterPlugin(p) => r.push(p),
            _ => r,
        }
    }
}

/// The windows that `acts` ask to create, in order.
pub open spec fn windows_requested(acts: Seq<ActionView>) -> Seq<WindowView>
    decreases acts.len(),
{
    if acts.len() == 0 {
        Seq::empty()
    } else {
        let r = windows_requested(acts.drop_last());
        match acts.last() {
            ActionView::BuildWindow(w) => r.push(w),
            _ => r,
        }
    }
}

/// How many startup plugins have been asked for by the time `p` is reached.
pub open spec fn plugins_asked(p: Phase) -> nat {
    match p {
        Phase::Idle => 0,
        Phase::Registering(k) => (k + 1) as nat,
        _ => STARTUP_PLUGIN_COUNT as nat,
    }
}

/// The main window has been asked for by the time `p` is reached.
pub open spec fn window_asked(p: Phase) -> bool {
    !(p is Idle) && !(p is Registering)
}

/// What the driver reports when nothing goes wrong, up to the run loop.
pub open spec fn healthy_events(mode: BuildMode) -> Seq<Event> {
    let common = seq![
        Event::Start,
        Event::PluginRegistered,
        Event::PluginRegistered,
        Event::PluginRegistered,
        Event::WindowBuilt,
    ];
    match mode {
        BuildMode::Debug => common.push(Event::LogAttached),
        BuildMode::Release => common,
    }
}

proof fn lemma_run_invariant(os: TargetOs, mode: BuildMode, events: Seq<Event>)
    ensures
        ({
            let (s, acts) = run_from(initial(os, mode), events);
            &&& s.wf()
            &&& s.os == os
            &&& s.mode == mode
            &&& acts.len() == events.len()
            &&& registered_plugins(acts) == startup_plugin_seq().take(
                plugins_asked(s.phase) as int,
            )
            &&& windows_requested(acts) == if window_asked(s.phase) {
                seq![main_window_view(os)]
            } else {
                Seq::<WindowView>::empty()
            }
            &&& forall|i: int|
                0 <= i < acts.len() && acts[i] is BuildWindow ==> registered_plugins(acts.take(i))
                    == startup_plugin_seq()
            &&& forall|i: int|
                0 <= i < acts.len() && acts[i] is AttachPlugin ==> mode == BuildMode::Debug
                    && acts[i] == ActionView::AttachPlugin(Plugin::Log(LogLevel::Info))
        }),
    decreases events.len(),
{
    let full = startup_plugin_seq();
    assert(full.take(3) =~= full);
    if events.len() == 0 {
        assert(full.take(0) =~= Seq::<Plugin>::empty());
    } else {
        lemma_run_invariant(os, mode, events.drop_last());
        let (t, acts0) = run_from(initial(os, mode), events.drop_last());
        let (u, a) = next(t, events.last());
        let acts = acts0.push(a);
        assert(acts.drop_last() =~= acts0);
        assert(acts.take(acts0.len() as int) =~= acts0);
        if let Phase::Registering(k) = t.phase {
            if k + 1 < STARTUP_PLUGIN_COUNT {
                assert(full.take(k + 2) =~= full.take(k + 1).push(full[k + 1]));
            }
        }
        if t.phase is Idle {
            assert(full.take(1) =~= full.take(0).push(full[0]));
        }
        assert forall|i: int| 0 <= i < acts.len() && acts[i] is BuildWindow implies registered_plugins(
            acts.take(i),
        ) == full by {
            if i < acts0.len() {
                assert(acts.take(i) =~= acts0.take(i));
            }
        }
        assert forall|i: int| 0 <= i < acts.len() && acts[i] is AttachPlugin implies mode
            == BuildMode::Debug && acts[i] == ActionView::AttachPlugin(
            Plugin::Log(LogLevel::Info),
        ) by {
            if i < acts0.len() {
                assert(acts[i] == acts0[i]);
            }
        }
    }
}

/// Whatever the driver reports, startup asks for at most one window, and any
/// window it asks for is the main window of the platform.
pub proof fn lemma_at_most_one_window(os: TargetOs, mode: BuildMode, events: Seq<Event>)
    ensures
        ({
            let ws = windows_requested(run_from(initial(os, mode), events).1);
            &&& ws.len() <= 1
            &&& forall|i: int| 0 <= i < ws.len() ==> ws[i] == main_window_view(os)
        }),
{
    lemma_run_invariant(os, mode, events);
}

/// When nothing goes wrong, startup reaches the run loop having asked for
/// exactly one window: 1920 by 1080, resizable, not fullscreen, decorated,
/// opaque and with a shadow.
pub proof fn lemma_healthy_startup_opens_one_window(os: TargetOs, mode: BuildMode)
    ensures
        ({
            let (s, acts) = run_from(initial(os, mode), healthy_events(mode));
            let ws = windows_requested(acts);
            &&& s.phase == Phase::Running
            &&& s.window_open
            &&& acts.last() == ActionView::EnterRunLoop
            &&& ws.len() == 1
            &&& ws[0] == main_window_view(os)
            &&& ws[0].width == 1920 && ws[0].height == 1080
            &&& ws[0].resizable && !ws[0].fullscreen && ws[0].decorations
            &&& !ws[0].transparent && ws[0].shadow
        }),
{
    let ev = healthy_events(mode);
    let e5 = seq![
        Event::Start,
        Event::PluginRegistered,
        Event::PluginRegistered,
        Event::PluginRegistered,
        Event::WindowBuilt,
    ];
    assert(e5.drop_last() =~= e5.take(4));
    assert(e5.take(4).drop_last() =~= e5.take(3));
    assert(e5.take(3).drop_last() =~= e5.take(2));
    assert(e5.take(2).drop_last() =~= e5.take(1));
    assert(e5.take(1).drop_last() =~= e5.take(0));
    if mode == BuildMode::Debug {
        assert(ev.drop_last() =~= e5);
    }
    let s0 = initial(os, mode);
    // Naming each prefix's run lets the solver unfold it one step at a time.
    let r0 = run_from(s0, e5.take(0));
    let r1 = run_from(s0, e5.take(1));
    let r2 = run_from(s0, e5.take(2));
    let r3 = run_from(s0, e5.take(3));
    let r4 = run_from(s0, e5.take(4));
    assert(r1.0.phase == Phase::Registering(0));
    assert(r2.0.phase == Phase::Registering(1));
    assert(r3.0.phase == Phase::Registering(2));
    assert(r4.0.phase == Phase::BuildingWindow);
    let r5 = run_from(s0, e5);
    lemma_run_invariant(os, mode, ev);
}

/// The title bar is drawn transparent on macOS and left to the platform
/// default on every other operating system.
pub proof fn lemma_title_bar_style_only_on_macos(os: TargetOs)
    ensures
        os == TargetOs::MacOs ==> main_window_view(os).title_bar_style == Some(
            TitleBarStyle::Transparent,
        ),
        os != TargetOs::MacOs ==> main_window_view(os).title_bar_style is None,
{
}

/// A window that cannot be created ends startup: the process reports the
/// cause and exits with status 1, no window is left open, and nothing else
/// is ever asked of the driver.
pub proof fn lemma_window_failure_exits(s: Bootstrap)
    requires
        s.wf(),
        s.phase == Phase::BuildingWindow,
    ensures
        ({
            let (t, a) = next(s, Event::WindowFailed);
            &&& a == ActionView::ExitWithDiagnostic(1)
            &&& t.phase == Phase::Exited(1)
            &&& !t.window_open
            &&& forall|e: Event| next(t, e) == (t, ActionView::Nothing)
        }),
{
    assert(WINDOW_FAILURE_EXIT_CODE == 1);
}

/// The run loop is entered only once the window exists and, in a debug build,
/// once the logging plugin is attached; in a release build it never is. Any
/// logging plugin asked for is the one at info level.
pub proof fn lemma_log_plugin_before_run_loop(os: TargetOs, mode: BuildMode, events: Seq<Event>)
    ensures
        ({
            let (s, acts) = run_from(initial(os, mode), events);
            &&& acts.len() > 0 && acts.last() == ActionView::EnterRunLoop ==> s.window_open
                && s.log_attached == (mode == BuildMode::Debug)
            &&& forall|i: int|
                0 <= i < acts.len() && acts[i] is AttachPlugin ==> acts[i]
                    == ActionView::AttachPlugin(Plugin::Log(LogLevel::Info))
        }),
{
    lemma_run_invariant(os, mode, events);
    if events.len() > 0 {
        lemma_run_invariant(os, mode, events.drop_last());
    }
}

/// A release build never asks for the logging plugin and never has it.
pub proof fn lemma_no_log_plugin_in_release(os: TargetOs, events: Seq<Event>)
    ensures
        ({
            let (s, acts) = run_from(initial(os, BuildMode::Release), events);
            &&& !s.log_attached
            &&& forall|i: int| 0 <= i < acts.len() ==> !(acts[i] is AttachPlugin)
        }),
{
    lemma_run_invariant(os, BuildMode::Release, events);
}

/// In either build mode, the window is asked for only after exactly the three
/// startup plugins (reload prevention, opener, OS information) were asked
/// for, in that order; no more than those three are ever registered.
pub proof fn lemma_three_plugins_before_window(os: TargetOs, mode: BuildMode, events: Seq<Event>)
    ensures
        ({
            let acts = run_from(initial(os, mode), events).1;
            &&& forall|i: int|
                0 <= i < acts.len() && acts[i] is BuildWindow ==> registered_plugins(acts.take(i))
                    == seq![Plugin::PreventReload, Plugin::Opener, Plugin::OsInfo]
            &&& registered_plugins(acts).len() <= 3
            &&& startup_plugin_seq().len() == 3
        }),
{
    lemma_run_invariant(os, mode, events);
}

} // verus!
