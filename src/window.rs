//! How the application's window is requested from the platform.

use vstd::prelude::*;

verus! {

/// A window request: title, logical size and position, and whether the
/// window takes the whole desktop (borderless fullscreen at the native
/// resolution, which supersedes the logical size).
#[derive(Clone, Debug)]
pub struct WindowConfig {
    pub title: String,
    pub width: u32,
    pub height: u32,
    pub x: i32,
    pub y: i32,
    pub fullscreen_desktop: bool,
}

/// The launcher's window: 800 by 700 at the top-left origin, fullscreen
/// on the desktop.
pub fn launcher_window() -> (w: WindowConfig)
    ensures
        w.title@ == "ROMLauncher"@,
        w.width == 800,
        w.height == 700,
        w.x == 0,
        w.y == 0,
        w.fullscreen_desktop,
{
    WindowConfig {
        title: "ROMLauncher".to_string(),
        width: 800,
        height: 700,
        x: 0,
        y: 0,
        fullscreen_desktop: true,
    }
}

} // verus!
