//! How the main window is set up.

use vstd::prelude::*;

verus! {

/// A window size, in whole points.
#[derive(Debug, Clone, Copy, PartialEq, Eq, Structural)]
pub struct Size {
    pub x: u32,
    pub y: u32,
}

/// A window position on the screen, in whole points from the top left.
#[derive(Debug, Clone, Copy, PartialEq, Eq, Structural)]
pub struct Position {
    pub x: u32,
    pub y: u32,
}

/// How the main window is set up.
#[derive(Debug, Clone, Copy, PartialEq, Eq, Structural)]
pub struct Settings {
    pub maximized: bool,
    pub fullscreen: bool,
    pub resizable: bool,
    pub initial_window_size: Option<Size>,
    pub initial_window_postion: Option<Position>,
}

/// The settings a window gets unless told otherwise: a resizable window,
/// neither maximized nor full screen, with no preset size or position.
pub open spec fn default_settings() -> Settings {
    Settings {
        maximized: false,
        fullscreen: false,
        resizable: true,
        initial_window_size: None,
        initial_window_postion: None,
    }
}

impl Default for Settings {
    fn default() -> (settings: Self)
        ensures
            settings == default_settings(),
    {
        Self {
            maximized: false,
            fullscreen: false,
            resizable: true,
            initial_window_size: None,
            initial_window_postion: None,
        }
    }
}

} // verus!
