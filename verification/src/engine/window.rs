//! Placing the main window on a monitor.

use vstd::prelude::*;

use crate::engine::settings::{Position, Settings, Size};

verus! {

/// The size of a monitor, in physical pixels.
#[derive(Debug, Clone, Copy, PartialEq, Eq, Structural)]
pub struct MonitorSize {
    pub width: u32,
    pub height: u32,
}

/// The size a window is taken to have when its settings give none.
pub open spec fn default_window_size() -> Size {
    Size { x: 800, y: 600 }
}

/// The window size the settings ask for, or the default one.
pub open spec fn window_size_of(settings: Settings) -> Size {
    match settings.initial_window_size {
        Some(size) => size,
        None => default_window_size(),
    }
}

/// Whether a monitor has a usable size: neither side is zero.
pub open spec fn usable_monitor(monitor: MonitorSize) -> bool {
    monitor.width > 0 && monitor.height > 0
}

/// Whether a window of `size` fits on `monitor`.
pub open spec fn fits_on(size: Size, monitor: MonitorSize) -> bool {
    size.x <= monitor.width && size.y <= monitor.height
}

/// Where a window of `size` goes to sit in the middle of `monitor`: half
/// the room left over on each axis, rounded down.
pub open spec fn centered_position(monitor: MonitorSize, size: Size) -> Position {
    Position {
        x: ((monitor.width - size.x) / 2) as u32,
        y: ((monitor.height - size.y) / 2) as u32,
    }
}

/// Whether the window the settings describe fits on the monitor, where
/// there is a usable one.
pub open spec fn centering_fits(monitor: Option<MonitorSize>, settings: Settings) -> bool {
    match monitor {
        Some(m) => usable_monitor(m) ==> fits_on(window_size_of(settings), m),
        None => true,
    }
}

/// The settings after centering the window on the monitor: the initial
/// position is set when there is a usable monitor, and nothing else
/// changes.
pub open spec fn centered_settings(monitor: Option<MonitorSize>, settings: Settings) -> Settings {
    match monitor {
        Some(m) => if usable_monitor(m) {
            Settings {
                initial_window_postion: Some(centered_position(m, window_size_of(settings))),
                ..settings
            }
        } else {
            settings
        },
        None => settings,
    }
}

/// Centering on a usable monitor always moves the window to the middle,
/// whatever position the settings held before, and changes nothing else;
/// without a usable monitor the settings stay as they are.
pub proof fn lemma_centering_moves_the_window(
    monitor: Option<MonitorSize>,
    settings: Settings,
)
    ensures
        forall|m: MonitorSize|
            #![trigger usable_monitor(m)]
            monitor == Some(m) && usable_monitor(m) ==> centered_settings(
                monitor,
                settings,
            ).initial_window_postion == Some(centered_position(m, window_size_of(settings))),
        centered_settings(monitor, settings).maximized == settings.maximized,
        centered_settings(monitor, settings).fullscreen == settings.fullscreen,
        centered_settings(monitor, settings).resizable == settings.resizable,
        centered_settings(monitor, settings).initial_window_size == settings.initial_window_size,
        (forall|m: MonitorSize| #![trigger usable_monitor(m)] monitor == Some(m) ==> !usable_monitor(m))
            ==> centered_settings(monitor, settings) == settings,
{
    if let Some(m) = monitor {
        assert(usable_monitor(m) || !usable_monitor(m));
    }
}

/// A centered window is in the middle of the monitor: the room to its left
/// and the room to its right differ by at most one, and so do the room
/// above it and the room below it.
pub proof fn lemma_centered_window_is_in_the_middle(monitor: MonitorSize, size: Size)
    requires
        fits_on(size, monitor),
    ensures
        ({
            let pos = centered_position(monitor, size);
            let left = pos.x as int;
            let right = monitor.width - size.x - pos.x;
            let top = pos.y as int;
            let bottom = monitor.height - size.y - pos.y;
            &&& 0 <= left <= right <= left + 1
            &&& 0 <= top <= bottom <= top + 1
        }),
{
}

/// Whether `center_window_postion` may be called: where the monitor has a
/// usable size, the window fits on it.
pub fn centering_fits_window(monitor: Option<MonitorSize>, settings: &Settings) -> (fits: bool)
    ensures
        fits == centering_fits(monitor, *settings),
{
    match monitor {
        Some(m) => {
            if m.width > 0 && m.height > 0 {
                let size = match settings.initial_window_size {
                    Some(size) => size,
                    None => Size { x: 800, y: 600 },
                };
                size.x <= m.width && size.y <= m.height
            } else {
                true
            }
        },
        None => true,
    }
}

/// Sets the window's initial position so that it sits in the middle of
/// `monitor`, sized as the settings say or 800 by 600. Nothing changes when
/// there is no monitor or its size is zero on either side. The window must
/// fit on the monitor: the room left over is computed without wrapping.
pub fn center_window_postion(monitor: Option<MonitorSize>, settings: &mut Settings)
    requires
        centering_fits(monitor, *old(settings)),
    ensures
        *final(settings) == centered_settings(monitor, *old(settings)),
        forall|m: MonitorSize|
            #![trigger usable_monitor(m)]
            monitor == Some(m) && usable_monitor(m) ==> final(settings).initial_window_postion
                == Some(centered_position(m, window_size_of(*old(settings)))),
        final(settings).maximized == old(settings).maximized,
        final(settings).fullscreen == old(settings).fullscreen,
        final(settings).resizable == old(settings).resizable,
        final(settings).initial_window_size == old(settings).initial_window_size,
        (forall|m: MonitorSize| #![trigger usable_monitor(m)] monitor == Some(m) ==> !usable_monitor(m))
            ==> final(settings).initial_window_postion == old(settings).initial_window_postion,
{
    if let Some(monitor) = monitor {
        let monitor_size = monitor;
        let inner_size = match settings.initial_window_size {
            Some(size) => size,
            None => Size { x: 800, y: 600 },
        };
        if monitor_size.width > 0 && monitor_size.height > 0 {
            let x = (monitor_size.width - inner_size.x) / 2;
            let y = (monitor_size.height - inner_size.y) / 2;
            settings.initial_window_postion = Some(Position { x, y });
        }
    }
}

} // verus!
