use deditor::plugin::{
    log_plugin, startup_plugin, startup_plugins, BuildMode, LogLevel, Plugin,
    STARTUP_PLUGIN_COUNT,
};
use deditor::startup::{
    window_failure_diagnostic, Action, Bootstrap, Event, Phase, CLEAN_EXIT_CODE,
    WINDOW_FAILURE_EXIT_CODE,
};
use deditor::window::{
    main_window, title_bar_style, TargetOs, TitleBarStyle, WindowConfig, MAIN_WINDOW_HEIGHT,
    MAIN_WINDOW_WIDTH,
};

const ALL_OS: [TargetOs; 6] = [
    TargetOs::MacOs,
    TargetOs::Windows,
    TargetOs::Linux,
    TargetOs::Ios,
    TargetOs::Android,
    TargetOs::Other,
];

fn assert_main_window_geometry(c: &WindowConfig) {
    assert_eq!(c.label, "main");
    assert_eq!(c.title, "Deditor");
    assert_eq!(c.width, 1920);
    assert_eq!(c.height, 1080);
    assert!(c.resizable);
    assert!(!c.fullscreen);
    assert!(c.decorations);
    assert!(!c.transparent);
    assert!(c.shadow);
}

/// Drives a fresh machine through plugin registration and returns the window
/// it then asks for.
fn register_all(b: &mut Bootstrap) -> WindowConfig {
    let mut registered = Vec::new();
    let mut action = b.step(Event::Start);
    while let Action::RegisterPlugin(p) = action {
        registered.push(p);
        action = b.step(Event::PluginRegistered);
    }
    assert_eq!(
        registered,
        vec![Plugin::PreventReload, Plugin::Opener, Plugin::OsInfo]
    );
    match action {
        Action::BuildWindow(c) => c,
        other => panic!("expected a window request, got {:?}", other),
    }
}

#[test]
fn window_constants() {
    assert_eq!(MAIN_WINDOW_WIDTH, 1920);
    assert_eq!(MAIN_WINDOW_HEIGHT, 1080);
    assert_eq!(WINDOW_FAILURE_EXIT_CODE, 1);
    assert_eq!(CLEAN_EXIT_CODE, 0);
    assert_eq!(STARTUP_PLUGIN_COUNT, 3);
}

#[test]
fn main_window_has_fixed_geometry_on_every_os() {
    for os in ALL_OS {
        assert_main_window_geometry(&main_window(os));
    }
}

#[test]
fn transparent_title_bar_only_on_macos() {
    assert_eq!(
        main_window(TargetOs::MacOs).title_bar_style,
        Some(TitleBarStyle::Transparent)
    );
    assert_eq!(title_bar_style(TargetOs::MacOs), Some(TitleBarStyle::Transparent));
    for os in ALL_OS {
        if os != TargetOs::MacOs {
            assert_eq!(main_window(os).title_bar_style, None);
            assert_eq!(title_bar_style(os), None);
        }
    }
}

#[test]
fn startup_plugins_in_order() {
    assert_eq!(
        startup_plugins(),
        vec![Plugin::PreventReload, Plugin::Opener, Plugin::OsInfo]
    );
    assert_eq!(startup_plugin(0), Plugin::PreventReload);
    assert_eq!(startup_plugin(1), Plugin::Opener);
    assert_eq!(startup_plugin(2), Plugin::OsInfo);
}

#[test]
fn log_plugin_only_in_debug() {
    assert_eq!(log_plugin(BuildMode::Debug), Some(Plugin::Log(LogLevel::Info)));
    assert_eq!(log_plugin(BuildMode::Release), None);
}

#[test]
fn healthy_release_startup_opens_one_window() {
    let mut b = Bootstrap::new(TargetOs::Linux, BuildMode::Release);
    let c = register_all(&mut b);
    assert_main_window_geometry(&c);
    assert_eq!(c.title_bar_style, None);
    assert_eq!(b.phase, Phase::BuildingWindow);
    assert!(!b.window_open);
    assert!(matches!(b.step(Event::WindowBuilt), Action::EnterRunLoop));
    assert_eq!(b.phase, Phase::Running);
    assert!(b.window_open);
    assert!(!b.log_attached);
    assert!(matches!(b.step(Event::RunLoopExited), Action::Exit(0)));
    assert_eq!(b.phase, Phase::Exited(0));
}

#[test]
fn healthy_debug_startup_attaches_logging_before_run_loop() {
    let mut b = Bootstrap::new(TargetOs::MacOs, BuildMode::Debug);
    let c = register_all(&mut b);
    assert_main_window_geometry(&c);
    assert_eq!(c.title_bar_style, Some(TitleBarStyle::Transparent));
    assert!(matches!(
        b.step(Event::WindowBuilt),
        Action::AttachPlugin(Plugin::Log(LogLevel::Info))
    ));
    assert_eq!(b.phase, Phase::AttachingLog);
    assert!(!b.log_attached);
    assert!(matches!(b.step(Event::LogAttached), Action::EnterRunLoop));
    assert!(b.log_attached);
    assert!(b.window_open);
    assert_eq!(b.phase, Phase::Running);
}

#[test]
fn release_startup_never_asks_for_logging() {
    for os in ALL_OS {
        let mut b = Bootstrap::new(os, BuildMode::Release);
        register_all(&mut b);
        let after = b.step(Event::WindowBuilt);
        assert!(!matches!(after, Action::AttachPlugin(_)));
        assert!(matches!(b.step(Event::LogAttached), Action::Nothing));
        assert!(!b.log_attached);
    }
}

#[test]
fn window_failure_exits_with_status_one() {
    let mut b = Bootstrap::new(TargetOs::Windows, BuildMode::Debug);
    register_all(&mut b);
    assert!(matches!(
        b.step(Event::WindowFailed),
        Action::ExitWithDiagnostic(1)
    ));
    assert_eq!(b.phase, Phase::Exited(1));
    assert!(!b.window_open);
    assert!(!b.log_attached);
    let stopped = b;
    for e in [
        Event::Start,
        Event::PluginRegistered,
        Event::WindowBuilt,
        Event::LogAttached,
        Event::RunLoopExited,
    ] {
        assert!(matches!(b.step(e), Action::Nothing));
        assert_eq!(b, stopped);
    }
}

#[test]
fn window_failure_diagnostic_names_the_cause() {
    assert_eq!(
        window_failure_diagnostic("no display surface"),
        "Failed to build webview window: no display surface"
    );
    assert_eq!(
        window_failure_diagnostic(""),
        "Failed to build webview window: "
    );
}

#[test]
fn log_attach_failure_aborts() {
    let mut b = Bootstrap::new(TargetOs::Linux, BuildMode::Debug);
    register_all(&mut b);
    b.step(Event::WindowBuilt);
    assert!(matches!(b.step(Event::LogAttachFailed), Action::Abort));
    assert_eq!(b.phase, Phase::Aborted);
    assert!(matches!(b.step(Event::RunLoopFailed), Action::Abort));
    assert_eq!(b.phase, Phase::Aborted);
}

#[test]
fn run_loop_failure_aborts() {
    let mut b = Bootstrap::new(TargetOs::Linux, BuildMode::Release);
    register_all(&mut b);
    b.step(Event::WindowBuilt);
    assert!(matches!(b.step(Event::RunLoopFailed), Action::Abort));
    assert_eq!(b.phase, Phase::Aborted);
}

#[test]
fn events_out_of_order_change_nothing() {
    let mut b = Bootstrap::new(TargetOs::Linux, BuildMode::Debug);
    let fresh = b;
    for e in [
        Event::PluginRegistered,
        Event::WindowBuilt,
        Event::WindowFailed,
        Event::LogAttached,
        Event::RunLoopExited,
    ] {
        assert!(matches!(b.step(e), Action::Nothing));
        assert_eq!(b, fresh);
    }
    assert!(matches!(
        b.step(Event::Start),
        Action::RegisterPlugin(Plugin::PreventReload)
    ));
    assert!(matches!(b.step(Event::Start), Action::Nothing));
    assert_eq!(b.phase, Phase::Registering(0));
}
