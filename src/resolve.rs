//! Turning a display-mode request into the placement of a new window, given the
//! monitors that the platform reports.

use vstd::prelude::*;

use crate::errors::WindowError;
use crate::spec::WindowMode;

verus! {

/// The monitor index that, in a `Fullscreen` request, stands for the first monitor.
pub const PRIMARY_MONITOR: usize = usize::MAX;

/// The only bit depth that exclusive fullscreen accepts.
pub const FULLSCREEN_BIT_DEPTH: u16 = 32;

/// A video mode as a monitor reports it.
#[derive(Clone, Copy, Debug, PartialEq, Eq)]
pub struct VideoModeInfo {
    pub width: u32,
    pub height: u32,
    pub refresh_rate: u16,
    pub bit_depth: u16,
}

/// What the platform reports of one monitor: its current size, and its video modes
/// in the order of enumeration.
#[derive(Debug)]
pub struct MonitorInfo {
    pub size: (u32, u32),
    pub video_modes: Vec<VideoModeInfo>,
}

/// Where and how a new window is to be placed.
#[derive(Clone, Copy, Debug, PartialEq, Eq)]
pub enum WindowPlacement {
    /// An ordinary window with this inner size.
    Windowed { inner_size: (u32, u32) },
    /// Borderless fullscreen on the monitor with this index, with this inner size.
    Borderless { monitor: usize, inner_size: (u32, u32) },
    /// Exclusive fullscreen on the monitor with this index, in its video mode with
    /// this index.
    Exclusive { monitor: usize, video_mode: usize },
}

/// Whether a video mode is exactly the one asked for, at the fullscreen bit depth.
pub open spec fn mode_matches(m: VideoModeInfo, resolution: (u32, u32), refresh_rate: u16) -> bool {
    &&& m.width == resolution.0
    &&& m.height == resolution.1
    &&& m.refresh_rate == refresh_rate
    &&& m.bit_depth == FULLSCREEN_BIT_DEPTH
}

/// Whether some video mode of the list matches.
pub open spec fn has_match(modes: Seq<VideoModeInfo>, resolution: (u32, u32), refresh_rate: u16) -> bool {
    exists|i: int| 0 <= i < modes.len() && #[trigger] mode_matches(modes[i], resolution, refresh_rate)
}

/// Whether the video mode at `i` is the first of the list that matches.
pub open spec fn is_first_match(
    modes: Seq<VideoModeInfo>,
    i: int,
    resolution: (u32, u32),
    refresh_rate: u16,
) -> bool {
    &&& 0 <= i < modes.len()
    &&& mode_matches(modes[i], resolution, refresh_rate)
    &&& forall|j: int| 0 <= j < i ==> !#[trigger] mode_matches(modes[j], resolution, refresh_rate)
}

/// The index of the first matching video mode (meaningful where there is a match).
pub open spec fn first_match(modes: Seq<VideoModeInfo>, resolution: (u32, u32), refresh_rate: u16) -> int {
    choose|i: int| is_first_match(modes, i, resolution, refresh_rate)
}

/// The monitor that a borderless request names.
pub open spec fn borderless_monitor(monitor: usize, count: nat) -> Result<usize, WindowError> {
    if monitor < count {
        Ok(monitor)
    } else {
        Err(WindowError::UnknownMonitor { got: monitor, expected: count as usize })
    }
}

/// The monitor that an exclusive fullscreen request names: the sentinel stands for
/// the first monitor.
pub open spec fn fullscreen_monitor(monitor: usize, count: nat) -> Result<usize, WindowError> {
    if monitor == PRIMARY_MONITOR {
        if count == 0 {
            Err(WindowError::NoMonitors)
        } else {
            Ok(0usize)
        }
    } else {
        borderless_monitor(monitor, count)
    }
}

/// The placement that a request resolves to, or the error that it meets.
pub open spec fn resolve_spec(mode: WindowMode, monitors: Seq<MonitorInfo>) -> Result<
    WindowPlacement,
    WindowError,
> {
    match mode {
        WindowMode::Windowed { resolution } => Ok(WindowPlacement::Windowed { inner_size: resolution }),
        WindowMode::WindowedFullscreen { monitor } => match borderless_monitor(monitor, monitors.len()) {
            Ok(k) => Ok(WindowPlacement::Borderless { monitor: k, inner_size: monitors[k as int].size }),
            Err(e) => Err(e),
        },
        WindowMode::Fullscreen { monitor, resolution, refresh_rate } => match fullscreen_monitor(
            monitor,
            monitors.len(),
        ) {
            Ok(k) => {
                let modes = monitors[k as int].video_modes@;
                if has_match(modes, resolution, refresh_rate) {
                    Ok(
                        WindowPlacement::Exclusive {
                            monitor: k,
                            video_mode: first_match(modes, resolution, refresh_rate) as usize,
                        },
                    )
                } else {
                    Err(
                        WindowError::UnknownVideoMode {
                            monitor,
                            resolution,
                            refresh_rate,
                            bit_depth: FULLSCREEN_BIT_DEPTH,
                        },
                    )
                }
            },
            Err(e) => Err(e),
        },
    }
}

/// At most one video mode of a list is the first match.
pub proof fn lemma_first_match_unique(
    modes: Seq<VideoModeInfo>,
    i: int,
    j: int,
    resolution: (u32, u32),
    refresh_rate: u16,
)
    requires
        is_first_match(modes, i, resolution, refresh_rate),
        is_first_match(modes, j, resolution, refresh_rate),
    ensures
        i == j,
{
    if i < j {
        assert(!mode_matches(modes[i], resolution, refresh_rate));
    } else if j < i {
        assert(!mode_matches(modes[j], resolution, refresh_rate));
    }
}

/// A windowed request needs no monitor, resolves the same whatever the monitors are,
/// and never fails: the window gets the requested inner size.
pub proof fn lemma_windowed_ignores_monitors(
    resolution: (u32, u32),
    monitors: Seq<MonitorInfo>,
    others: Seq<MonitorInfo>,
)
    ensures
        !(WindowMode::Windowed { resolution }).spec_needs_monitors(),
        resolve_spec(WindowMode::Windowed { resolution }, monitors) == resolve_spec(
            WindowMode::Windowed { resolution },
            others,
        ),
        resolve_spec(WindowMode::Windowed { resolution }, monitors) == Ok::<
            WindowPlacement,
            WindowError,
        >(WindowPlacement::Windowed { inner_size: resolution }),
{
}

/// A borderless request for a monitor index at or past the number of monitors fails
/// with that index and that number.
pub proof fn lemma_borderless_unknown_monitor(monitor: usize, monitors: Seq<MonitorInfo>)
    requires
        monitor >= monitors.len(),
    ensures
        resolve_spec(WindowMode::WindowedFullscreen { monitor }, monitors) == Err::<
            WindowPlacement,
            WindowError,
        >(WindowError::UnknownMonitor { got: monitor, expected: monitors.len() as usize }),
{
}

/// An exclusive fullscreen request whose monitor has no video mode with exactly the
/// requested resolution and refresh rate at 32 bits fails, and the error carries the
/// requested monitor, resolution and refresh rate and the bit depth back.
pub proof fn lemma_fullscreen_unknown_video_mode(
    monitor: usize,
    resolution: (u32, u32),
    refresh_rate: u16,
    monitors: Seq<MonitorInfo>,
)
    requires
        fullscreen_monitor(monitor, monitors.len()) is Ok,
        !has_match(
            monitors[fullscreen_monitor(monitor, monitors.len())->Ok_0 as int].video_modes@,
            resolution,
            refresh_rate,
        ),
    ensures
        resolve_spec(WindowMode::Fullscreen { monitor, resolution, refresh_rate }, monitors)
            == Err::<WindowPlacement, WindowError>(
            WindowError::UnknownVideoMode {
                monitor,
                resolution,
                refresh_rate,
                bit_depth: FULLSCREEN_BIT_DEPTH,
            },
        ),
{
}

/// Of two matching video modes, the later one is never chosen: the chosen mode stands
/// at or before the earlier one, and is the earlier one where no mode before it
/// matches.
pub proof fn lemma_first_match_wins(
    monitor: usize,
    resolution: (u32, u32),
    refresh_rate: u16,
    monitors: Seq<MonitorInfo>,
    i: int,
    j: int,
)
    requires
        fullscreen_monitor(monitor, monitors.len()) is Ok,
        0 <= i < j < monitors[fullscreen_monitor(monitor, monitors.len())->Ok_0 as int].video_modes@.len(),
        mode_matches(
            monitors[fullscreen_monitor(monitor, monitors.len())->Ok_0 as int].video_modes@[i],
            resolution,
            refresh_rate,
        ),
        mode_matches(
            monitors[fullscreen_monitor(monitor, monitors.len())->Ok_0 as int].video_modes@[j],
            resolution,
            refresh_rate,
        ),
    ensures
        ({
            let k = fullscreen_monitor(monitor, monitors.len())->Ok_0;
            let modes = monitors[k as int].video_modes@;
            let r = resolve_spec(WindowMode::Fullscreen { monitor, resolution, refresh_rate }, monitors);
            &&& r matches Ok(WindowPlacement::Exclusive { monitor: m, video_mode: v }) && m == k && v
                <= i && v != j
            &&& (forall|l: int| 0 <= l < i ==> !#[trigger] mode_matches(modes[l], resolution, refresh_rate))
                ==> r == Ok::<WindowPlacement, WindowError>(
                WindowPlacement::Exclusive { monitor: k, video_mode: i as usize },
            )
        }),
{
    let k = fullscreen_monitor(monitor, monitors.len())->Ok_0;
    let modes = monitors[k as int].video_modes@;
    assert(has_match(modes, resolution, refresh_rate));
    lemma_has_first_match(modes, resolution, refresh_rate, i);
    let f = first_match(modes, resolution, refresh_rate);
    assert(is_first_match(modes, f, resolution, refresh_rate));
    if f > i {
        assert(!mode_matches(modes[i], resolution, refresh_rate));
    }
    if forall|l: int| 0 <= l < i ==> !#[trigger] mode_matches(modes[l], resolution, refresh_rate) {
        assert(is_first_match(modes, i, resolution, refresh_rate));
        lemma_first_match_unique(modes, i, f, resolution, refresh_rate);
    }
}

/// Where the mode at `i` matches, some mode at or before it is the first match.
proof fn lemma_has_first_match(
    modes: Seq<VideoModeInfo>,
    resolution: (u32, u32),
    refresh_rate: u16,
    i: int,
)
    requires
        0 <= i < modes.len(),
        mode_matches(modes[i], resolution, refresh_rate),
    ensures
        exists|f: int| f <= i && is_first_match(modes, f, resolution, refresh_rate),
    decreases i,
{
    if exists|l: int| 0 <= l < i && #[trigger] mode_matches(modes[l], resolution, refresh_rate) {
        let l = choose|l: int| 0 <= l < i && #[trigger] mode_matches(modes[l], resolution, refresh_rate);
        lemma_has_first_match(modes, resolution, refresh_rate, l);
    } else {
        assert(is_first_match(modes, i, resolution, refresh_rate));
    }
}

/// Scans the video modes in order for the first that matches.
fn find_video_mode(modes: &Vec<VideoModeInfo>, resolution: (u32, u32), refresh_rate: u16) -> (r:
    Option<usize>)
    ensures
        match r {
            Some(i) => is_first_match(modes@, i as int, resolution, refresh_rate),
            None => !has_match(modes@, resolution, refresh_rate),
        },
{
    let mut i: usize = 0;
    while i < modes.len()
        invariant
            i <= modes@.len(),
            forall|j: int| 0 <= j < i ==> !#[trigger] mode_matches(modes@[j], resolution, refresh_rate),
        decreases modes@.len() - i,
    {
        let m = modes[i];
        if resolution.0 == m.width && resolution.1 == m.height && refresh_rate == m.refresh_rate
            && m.bit_depth == FULLSCREEN_BIT_DEPTH {
            return Some(i);
        }
        i = i + 1;
    }
    None
}

/// Resolves a display-mode request against the monitors, in their order of
/// enumeration.
///
/// `Windowed` needs no monitor and never fails. `WindowedFullscreen` takes the
/// monitor with the given index, at its current size. `Fullscreen` takes the monitor
/// with the given index (the first for `PRIMARY_MONITOR`) and the first of its video
/// modes that has exactly the resolution and refresh rate asked for, at 32 bits.
pub fn resolve_window_mode(mode: &WindowMode, monitors: &Vec<MonitorInfo>) -> (r: Result<
    WindowPlacement,
    WindowError,
>)
    ensures
        r == resolve_spec(*mode, monitors@),
{
    match *mode {
        WindowMode::Windowed { resolution } => Ok(WindowPlacement::Windowed { inner_size: resolution }),
        WindowMode::WindowedFullscreen { monitor } => {
            if monitor < monitors.len() {
                Ok(WindowPlacement::Borderless { monitor, inner_size: monitors[monitor].size })
            } else {
                Err(WindowError::UnknownMonitor { got: monitor, expected: monitors.len() })
            }
        },
        WindowMode::Fullscreen { monitor, resolution, refresh_rate } => {
            let k: usize = if monitor == PRIMARY_MONITOR {
                if monitors.len() == 0 {
                    return Err(WindowError::NoMonitors);
                }
                0
            } else if monitor < monitors.len() {
                monitor
            } else {
                return Err(WindowError::UnknownMonitor { got: monitor, expected: monitors.len() });
            };
            match find_video_mode(&monitors[k].video_modes, resolution, refresh_rate) {
                Some(i) => {
                    proof {
                        let modes = monitors@[k as int].video_modes@;
                        assert(has_match(modes, resolution, refresh_rate));
                        let f = first_match(modes, resolution, refresh_rate);
                        lemma_first_match_unique(modes, i as int, f, resolution, refresh_rate);
                    }
                    Ok(WindowPlacement::Exclusive { monitor: k, video_mode: i })
                },
                None => Err(
                    WindowError::UnknownVideoMode {
                        monitor,
                        resolution,
                        refresh_rate,
                        bit_depth: FULLSCREEN_BIT_DEPTH,
                    },
                ),
            }
        },
    }
}

} // verus!
