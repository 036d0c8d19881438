use rust_win::errors::WindowError;
use rust_win::resolve::{
    resolve_window_mode, MonitorInfo, VideoModeInfo, WindowPlacement, PRIMARY_MONITOR,
};
use rust_win::spec::WindowMode;

fn mode(width: u32, height: u32, refresh_rate: u16, bit_depth: u16) -> VideoModeInfo {
    VideoModeInfo { width, height, refresh_rate, bit_depth }
}

fn monitor(size: (u32, u32), video_modes: Vec<VideoModeInfo>) -> MonitorInfo {
    MonitorInfo { size, video_modes }
}

#[test]
fn windowed_resolves_without_monitors() {
    let m = WindowMode::Windowed { resolution: (800, 600) };
    assert!(!m.needs_monitors());
    let r = resolve_window_mode(&m, &vec![]);
    assert_eq!(r, Ok(WindowPlacement::Windowed { inner_size: (800, 600) }));
    let r2 = resolve_window_mode(&m, &vec![monitor((1, 1), vec![])]);
    assert_eq!(r2, Ok(WindowPlacement::Windowed { inner_size: (800, 600) }));
}

#[test]
fn other_modes_need_monitors() {
    assert!(WindowMode::WindowedFullscreen { monitor: 0 }.needs_monitors());
    assert!(WindowMode::Fullscreen { monitor: 0, resolution: (1, 1), refresh_rate: 1 }.needs_monitors());
}

#[test]
fn windowed_fullscreen_unknown_monitor() {
    let ms = vec![monitor((1920, 1080), vec![])];
    let r = resolve_window_mode(&WindowMode::WindowedFullscreen { monitor: 3 }, &ms);
    assert_eq!(r, Err(WindowError::UnknownMonitor { got: 3, expected: 1 }));
}

#[test]
fn windowed_fullscreen_index_equal_to_count() {
    let ms = vec![monitor((1920, 1080), vec![]), monitor((1280, 720), vec![])];
    let r = resolve_window_mode(&WindowMode::WindowedFullscreen { monitor: 2 }, &ms);
    assert_eq!(r, Err(WindowError::UnknownMonitor { got: 2, expected: 2 }));
}

#[test]
fn windowed_fullscreen_takes_monitor_size() {
    let ms = vec![monitor((1920, 1080), vec![]), monitor((1280, 720), vec![])];
    let r = resolve_window_mode(&WindowMode::WindowedFullscreen { monitor: 1 }, &ms);
    assert_eq!(r, Ok(WindowPlacement::Borderless { monitor: 1, inner_size: (1280, 720) }));
}

#[test]
fn windowed_fullscreen_without_monitors() {
    let r = resolve_window_mode(&WindowMode::WindowedFullscreen { monitor: 0 }, &vec![]);
    assert_eq!(r, Err(WindowError::UnknownMonitor { got: 0, expected: 0 }));
}

#[test]
fn fullscreen_selects_first_matching_mode() {
    let ms = vec![monitor((1920, 1080), vec![mode(1920, 1080, 60, 32), mode(1920, 1080, 144, 32)])];
    let m = WindowMode::Fullscreen { monitor: 0, resolution: (1920, 1080), refresh_rate: 60 };
    assert_eq!(resolve_window_mode(&m, &ms), Ok(WindowPlacement::Exclusive { monitor: 0, video_mode: 0 }));
}

#[test]
fn fullscreen_earlier_of_two_equal_modes_wins() {
    let ms = vec![monitor(
        (2560, 1440),
        vec![mode(1280, 720, 60, 32), mode(1920, 1080, 60, 32), mode(1920, 1080, 60, 32)],
    )];
    let m = WindowMode::Fullscreen { monitor: 0, resolution: (1920, 1080), refresh_rate: 60 };
    assert_eq!(resolve_window_mode(&m, &ms), Ok(WindowPlacement::Exclusive { monitor: 0, video_mode: 1 }));
}

#[test]
fn fullscreen_skips_other_bit_depths() {
    let ms = vec![monitor((1920, 1080), vec![mode(1920, 1080, 60, 24), mode(1920, 1080, 60, 32)])];
    let m = WindowMode::Fullscreen { monitor: 0, resolution: (1920, 1080), refresh_rate: 60 };
    assert_eq!(resolve_window_mode(&m, &ms), Ok(WindowPlacement::Exclusive { monitor: 0, video_mode: 1 }));
}

#[test]
fn fullscreen_unknown_video_mode() {
    let ms = vec![monitor((1920, 1080), vec![mode(1920, 1080, 60, 24), mode(1920, 1080, 144, 32)])];
    let m = WindowMode::Fullscreen { monitor: 0, resolution: (1920, 1080), refresh_rate: 60 };
    assert_eq!(
        resolve_window_mode(&m, &ms),
        Err(WindowError::UnknownVideoMode { monitor: 0, resolution: (1920, 1080), refresh_rate: 60, bit_depth: 32 })
    );
}

#[test]
fn fullscreen_primary_takes_first_monitor() {
    let ms = vec![
        monitor((1920, 1080), vec![mode(800, 600, 75, 32)]),
        monitor((800, 600), vec![mode(800, 600, 60, 32)]),
    ];
    let m = WindowMode::Fullscreen { monitor: PRIMARY_MONITOR, resolution: (800, 600), refresh_rate: 75 };
    assert_eq!(resolve_window_mode(&m, &ms), Ok(WindowPlacement::Exclusive { monitor: 0, video_mode: 0 }));
}

#[test]
fn fullscreen_primary_without_monitors() {
    let m = WindowMode::Fullscreen { monitor: PRIMARY_MONITOR, resolution: (800, 600), refresh_rate: 75 };
    assert_eq!(resolve_window_mode(&m, &vec![]), Err(WindowError::NoMonitors));
}

#[test]
fn fullscreen_primary_unknown_video_mode_keeps_sentinel() {
    let ms = vec![monitor((1920, 1080), vec![])];
    let m = WindowMode::Fullscreen { monitor: PRIMARY_MONITOR, resolution: (800, 600), refresh_rate: 75 };
    assert_eq!(
        resolve_window_mode(&m, &ms),
        Err(WindowError::UnknownVideoMode { monitor: usize::MAX, resolution: (800, 600), refresh_rate: 75, bit_depth: 32 })
    );
}

#[test]
fn fullscreen_unknown_monitor() {
    let ms = vec![monitor((1920, 1080), vec![mode(1920, 1080, 60, 32)])];
    let m = WindowMode::Fullscreen { monitor: 1, resolution: (1920, 1080), refresh_rate: 60 };
    assert_eq!(resolve_window_mode(&m, &ms), Err(WindowError::UnknownMonitor { got: 1, expected: 1 }));
}

#[test]
fn fullscreen_on_second_monitor() {
    let ms = vec![
        monitor((1920, 1080), vec![mode(1920, 1080, 60, 32)]),
        monitor((1280, 1024), vec![mode(1280, 1024, 75, 32), mode(1280, 1024, 60, 32)]),
    ];
    let m = WindowMode::Fullscreen { monitor: 1, resolution: (1280, 1024), refresh_rate: 60 };
    assert_eq!(resolve_window_mode(&m, &ms), Ok(WindowPlacement::Exclusive { monitor: 1, video_mode: 1 }));
}
