//! The main window: its geometry, its chrome, and the title-bar style that one
//! operating system asks for.
use vstd::prelude::*;

verus! {

/// Width of the main window, in logical units.
pub const MAIN_WINDOW_WIDTH: u32 = 1920;

/// Height of the main window, in logical units.
pub const MAIN_WINDOW_HEIGHT: u32 = 1080;

/// The operating system the shell was built for.
#[derive(Clone, Copy, Debug, PartialEq, Eq, Structural)]
pub enum TargetOs {
    MacOs,
    Windows,
    Linux,
    Ios,
    Android,
    Other,
}

/// How the title bar of a window is drawn.
#[derive(Clone, Copy, Debug, PartialEq, Eq, Structural)]
pub enum TitleBarStyle {
    /// The platform's ordinary title bar.
    Visible,
    /// A title bar whose background shows the window content.
    Transparent,
    /// The content is drawn under the title bar, which floats above it.
    Overlay,
}

/// Everything the shell asks of the host framework when it creates a window.
#[derive(Debug)]
pub struct WindowConfig {
    pub label: String,
    pub title: String,
    pub width: u32,
    pub height: u32,
    pub resizable: bool,
    pub fullscreen: bool,
    pub decorations: bool,
    pub transparent: bool,
    pub shadow: bool,
    /// `None` leaves the platform's default title bar in place.
    pub title_bar_style: Option<TitleBarStyle>,
}

/// A window configuration, with its texts as sequences of characters.
pub struct WindowView {
    pub label: Seq<char>,
    pub title: Seq<char>,
    pub width: u32,
    pub height: u32,
    pub resizable: bool,
    pub fullscreen: bool,
    pub decorations: bool,
    pub transparent: bool,
    pub shadow: bool,
    pub title_bar_style: Option<TitleBarStyle>,
}

impl View for WindowConfig {
    type V = WindowView;

    open spec fn view(&self) -> WindowView {
        WindowView {
            label: self.label@,
            title: self.title@,
            width: self.width,
            height: self.height,
            resizable: self.resizable,
            fullscreen: self.fullscreen,
            decorations: self.decorations,
            transparent: self.transparent,
            shadow: self.shadow,
            title_bar_style: self.title_bar_style,
        }
    }
}

/// The title-bar style requested on `os`: a transparent one on macOS, the
/// platform default everywhere else.
pub open spec fn title_bar_style_for(os: TargetOs) -> Option<TitleBarStyle> {
    if os == TargetOs::MacOs {
        Some(TitleBarStyle::Transparent)
    } else {
        None
    }
}

/// The main window as it is created on `os`.
pub open spec fn main_window_view(os: TargetOs) -> WindowView {
    WindowView {
        label: "main"@,
        title: "Deditor"@,
        width: MAIN_WINDOW_WIDTH,
        height: MAIN_WINDOW_HEIGHT,
        resizable: true,
        fullscreen: false,
        decorations: true,
        transparent: false,
        shadow: true,
        title_bar_style: title_bar_style_for(os),
    }
}

/// The title-bar style to request on `os`.
pub fn title_bar_style(os: TargetOs) -> (r: Option<TitleBarStyle>)
    ensures
        r == title_bar_style_for(os),
{
    match os {
        TargetOs::MacOs => Some(TitleBarStyle::Transparent),
        _ => None,
    }
}

/// The configuration of the application's one window on `os`.
pub fn main_window(os: TargetOs) -> (c: WindowConfig)
    ensures
        c@ == main_window_view(os),
{
    WindowConfig {
        label: "main".to_owned(),
        title: "Deditor".to_owned(),
        width: MAIN_WINDOW_WIDTH,
        height: MAIN_WINDOW_HEIGHT,
        resizable: true,
        fullscreen: false,
        decorations: true,
        transparent: false,
        shadow: true,
        title_bar_style: title_bar_style(os),
    }
}

} // verus!
