//! The size and the place of the engine's window.

use vstd::prelude::*;

verus! {

/// Keys that the engine reacts to. Every other key is `Unknown`.
#[derive(Clone, Copy, Debug, PartialEq, Eq, Structural)]
pub enum Key {
    Escape,
    W,
    A,
    S,
    D,
    Unknown,
}

/// How large the window is to be.
#[derive(Clone, Copy, Debug, PartialEq, Eq, Structural)]
pub enum Resolution {
    /// A window of this width and height.
    Windowed(u32, u32),
    /// The whole primary monitor, in its current video mode.
    Fullscreen,
    /// The whole primary monitor, in a video mode of this width and height.
    FullscreenWithRes(u32, u32),
}

impl Resolution {
    /// The width and height of the window on a monitor whose current video
    /// mode is `mode_width` by `mode_height`.
    pub open spec fn spec_size(&self, mode_width: u32, mode_height: u32) -> (u32, u32) {
        match *self {
            Resolution::Windowed(width, height) => (width, height),
            Resolution::Fullscreen => (mode_width, mode_height),
            Resolution::FullscreenWithRes(width, height) => (width, height),
        }
    }

    /// The width and height of the window on a monitor whose current video
    /// mode is `mode_width` by `mode_height`.
    pub fn size(&self, mode_width: u32, mode_height: u32) -> (size: (u32, u32))
        ensures
            size == self.spec_size(mode_width, mode_height),
    {
        match *self {
            Resolution::Windowed(width, height) => (width, height),
            Resolution::Fullscreen => (mode_width, mode_height),
            Resolution::FullscreenWithRes(width, height) => (width, height),
        }
    }

    /// Whether the window covers the monitor.
    pub fn is_fullscreen(&self) -> (full: bool)
        ensures
            full == !(*self is Windowed),
    {
        match *self {
            Resolution::Windowed(_, _) => false,
            _ => true,
        }
    }
}

/// Where a window of length `window` begins on a screen of length `screen`
/// so that the two have the same middle.
pub open spec fn spec_centered(screen: u32, window: u32) -> int {
    screen / 2 - window / 2
}

/// The position of the top left corner that centres the window on a
/// monitor whose current video mode is `mode_width` by `mode_height`. Only
/// a window that does not cover the monitor is centred.
pub fn center_window(res: &Resolution, mode_width: u32, mode_height: u32) -> (origin: Option<
    (i32, i32),
>)
    ensures
        match *res {
            Resolution::Windowed(width, height) => origin matches Some(at) && at.0
                == spec_centered(mode_width, width) && at.1 == spec_centered(mode_height, height),
            _ => origin is None,
        },
{
    match *res {
        Resolution::Windowed(win_width, win_height) => {
            let win_x: i64 = (mode_width / 2) as i64 - (win_width / 2) as i64;
            let win_y: i64 = (mode_height / 2) as i64 - (win_height / 2) as i64;
            Some((win_x as i32, win_y as i32))
        },
        _ => None,
    }
}

} // verus!
