//! Public request types: how a window is sized and placed, and what it is created with.

use vstd::prelude::*;

use crate::errors::WindowModeError;

/// The error of decoding a window mode, under the name this module gives it.
pub use crate::errors::WindowModeError as Error;

verus! {

/// A width and a height, in pixels.
#[derive(Clone, Copy, Debug, PartialEq, Eq)]
pub struct Extent2D {
    pub w: u32,
    pub h: u32,
}

impl Extent2D {
    pub fn new(w: u32, h: u32) -> (r: Extent2D)
        ensures
            r.w == w,
            r.h == h,
    {
        Extent2D { w, h }
    }
}

/// How to size and place a window.
#[derive(Clone, Copy, Debug, PartialEq, Eq)]
pub enum WindowMode {
    /// An ordinary window with the given inner size.
    Windowed { resolution: (u32, u32) },
    /// Borderless fullscreen on the monitor with the given index, at its current size.
    WindowedFullscreen { monitor: usize },
    /// Exclusive fullscreen on the monitor with the given index (or, for `usize::MAX`,
    /// the first monitor), in the video mode with exactly this resolution and refresh rate.
    Fullscreen { monitor: usize, resolution: (u32, u32), refresh_rate: u16 },
}

/// The mode that a textual tag stands for, its numbers all zero; `None` for an unknown tag.
pub open spec fn mode_of_tag(tag: Seq<char>) -> Option<WindowMode> {
    if tag == "windowed"@ {
        Some(WindowMode::Windowed { resolution: (0, 0) })
    } else if tag == "windowed_fullscreen"@ {
        Some(WindowMode::WindowedFullscreen { monitor: 0 })
    } else if tag == "fullscreen"@ {
        Some(WindowMode::Fullscreen { monitor: 0, resolution: (0, 0), refresh_rate: 0 })
    } else {
        None
    }
}

/// Whether two strings hold the same characters.
fn str_equals(a: &str, b: &str) -> (r: bool)
    ensures
        r == (a@ == b@),
{
    let n = a.unicode_len();
    let m = b.unicode_len();
    if n != m {
        return false;
    }
    let mut i: usize = 0;
    while i < n
        invariant
            n == a@.len(),
            m == b@.len(),
            n == m,
            i <= n,
            forall|j: int| 0 <= j < i ==> a@[j] == b@[j],
        decreases n - i,
    {
        if a.get_char(i) != b.get_char(i) {
            return false;
        }
        i = i + 1;
    }
    assert(a@ =~= b@);
    true
}

impl WindowMode {
    /// Whether resolving this mode needs the list of monitors.
    pub open spec fn spec_needs_monitors(&self) -> bool {
        !(self is Windowed)
    }

    /// Whether resolving this mode needs the list of monitors: every mode but `Windowed`.
    pub fn needs_monitors(&self) -> (r: bool)
        ensures
            r == self.spec_needs_monitors(),
    {
        match self {
            WindowMode::Windowed { .. } => false,
            _ => true,
        }
    }

    /// Decodes a textual mode tag: `windowed`, `windowed_fullscreen` or `fullscreen`,
    /// with every number zero. Any other text is refused.
    pub fn parse(value: &str) -> (r: Result<WindowMode, WindowModeError>)
        ensures
            match r {
                Ok(mode) => mode_of_tag(value@) == Some(mode),
                Err(WindowModeError::UnknownWindowMode { got }) => mode_of_tag(value@) is None
                    && got@ == value@,
            },
    {
        if str_equals(value, "windowed") {
            Ok(WindowMode::Windowed { resolution: (0, 0) })
        } else if str_equals(value, "windowed_fullscreen") {
            Ok(WindowMode::WindowedFullscreen { monitor: 0 })
        } else if str_equals(value, "fullscreen") {
            Ok(WindowMode::Fullscreen { monitor: 0, resolution: (0, 0), refresh_rate: 0 })
        } else {
            Err(WindowModeError::UnknownWindowMode { got: value.to_owned() })
        }
    }
}

impl std::str::FromStr for WindowMode {
    type Err = WindowModeError;

    /// Decodes a textual mode tag, as `WindowMode::parse` does.
    fn from_str(value: &str) -> (r: Result<WindowMode, WindowModeError>)
        ensures
            match r {
                Ok(mode) => mode_of_tag(value@) == Some(mode),
                Err(WindowModeError::UnknownWindowMode { got }) => mode_of_tag(value@) is None
                    && got@ == value@,
            },
    {
        WindowMode::parse(value)
    }
}

/// What a new window is created with.
#[derive(Clone, Debug)]
pub struct WindowInfo {
    /// The title of the new window.
    pub title: String,
    /// How the new window is sized and placed.
    pub window_mode: WindowMode,
}

impl WindowInfo {
    /// Bundles a title and a mode.
    pub fn new(title: &str, window_mode: WindowMode) -> (r: WindowInfo)
        ensures
            r.title@ == title@,
            r.window_mode == window_mode,
    {
        WindowInfo { title: title.to_owned(), window_mode }
    }
}

} // verus!
