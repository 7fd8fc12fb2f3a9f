use spectra::geometry::{capture_region_at, find_monitor_containing, overlay_bounds, MonitorInfo};
use spectra::query::{locate_pixel, pixel_from_capture, QueryError};
use spectra::sampler::sample_loupe;
use spectra::session::{plan_tick, PickingSession, LOUPE_SIZE};
use global_hotkey::hotkey::HotKey;
use spectra::shortcut::{ShortcutError, ShortcutRegistry};
use std::str::FromStr;

fn three_monitors() -> Vec<MonitorInfo> {
    vec![
        MonitorInfo::new(1, 0, 0, 1920, 1080),
        MonitorInfo::new(2, 1920, 0, 1920, 1080),
        MonitorInfo::new(3, -1080, 0, 1080, 1920),
    ]
}

#[test]
fn three_monitor_lookup() {
    let ms = three_monitors();
    assert_eq!(find_monitor_containing(&ms, 3000, 500), Some(1));
    assert_eq!(find_monitor_containing(&ms, -500, 1000), Some(2));
    assert_eq!(find_monitor_containing(&ms, 5000, 5000), None);
}

#[test]
fn monitor_edges_are_half_open() {
    let ms = three_monitors();
    assert_eq!(find_monitor_containing(&ms, 1919, 0), Some(0));
    assert_eq!(find_monitor_containing(&ms, 1920, 0), Some(1));
    assert_eq!(find_monitor_containing(&ms, 0, 1080), None);
    assert_eq!(find_monitor_containing(&ms, -1081, 0), None);
    assert_eq!(find_monitor_containing(&Vec::new(), 0, 0), None);
}

#[test]
fn overlapping_monitors_first_wins() {
    let ms = vec![MonitorInfo::new(7, 0, 0, 100, 100), MonitorInfo::new(8, 50, 50, 100, 100)];
    assert_eq!(find_monitor_containing(&ms, 60, 60), Some(0));
    assert_eq!(find_monitor_containing(&ms, 120, 120), Some(1));
}

#[test]
fn uniform_capture_gives_uniform_grid() {
    let mut buf = Vec::new();
    for _ in 0..(15 * 15) {
        buf.extend_from_slice(&[10, 20, 30, 255]);
    }
    let frame = sample_loupe(&buf, 15, 400, 300);
    assert_eq!(frame.grid.len(), 675);
    for px in frame.grid.chunks(3) {
        assert_eq!(px, &[10, 20, 30]);
    }
    assert_eq!((frame.r, frame.g, frame.b), (10, 20, 30));
    assert_eq!((frame.x, frame.y), (400, 300));
    assert_eq!((frame.grid_width, frame.grid_height), (15, 15));
}

fn numbered_buffer(pixels: usize) -> Vec<u8> {
    let mut buf = Vec::new();
    for i in 0..pixels {
        let v = (i % 250) as u8;
        buf.extend_from_slice(&[v, v.wrapping_add(1), v.wrapping_add(2), 255]);
    }
    buf
}

#[test]
fn even_size_grid_length_and_center() {
    let buf = numbered_buffer(16);
    let frame = sample_loupe(&buf, 4, 0, 0);
    assert_eq!(frame.grid.len(), 4 * 4 * 3);
    let c = 2 * 4 + 2;
    assert_eq!((frame.r, frame.g, frame.b), (10, 11, 12));
    assert_eq!(&frame.grid[3 * c..3 * c + 3], &[frame.r, frame.g, frame.b]);
}

#[test]
fn odd_size_center_matches_grid() {
    let buf = numbered_buffer(225);
    let frame = sample_loupe(&buf, 15, 5, 6);
    let c = 7 * 15 + 7;
    assert_eq!(c, 112);
    assert_eq!((frame.r, frame.g, frame.b), (112, 113, 114));
    assert_eq!(&frame.grid[3 * c..3 * c + 3], &[112, 113, 114]);
}

#[test]
fn short_capture_truncates_grid() {
    // ten whole pixels and two stray bytes
    let mut buf = numbered_buffer(10);
    buf.extend_from_slice(&[9, 9]);
    let frame = sample_loupe(&buf, 15, 0, 0);
    assert_eq!(frame.grid.len(), 30);
    assert_eq!(&frame.grid[27..30], &[9, 10, 11]);
    assert_eq!((frame.r, frame.g, frame.b), (0, 0, 0));
}

#[test]
fn long_capture_reads_only_the_region() {
    let buf = numbered_buffer(30);
    let frame = sample_loupe(&buf, 3, 0, 0);
    assert_eq!(frame.grid.len(), 27);
    assert_eq!((frame.r, frame.g, frame.b), (4, 5, 6));
}

#[test]
fn empty_region_gives_empty_grid() {
    let frame = sample_loupe(&numbered_buffer(4), 0, 1, 2);
    assert!(frame.grid.is_empty());
    assert_eq!((frame.r, frame.g, frame.b), (0, 0, 0));
}

#[test]
fn region_is_centred_on_cursor() {
    let r = capture_region_at(100, 200, 15);
    assert_eq!((r.x, r.y, r.width, r.height), (93, 193, 15, 15));
    let r = capture_region_at(-3, 0, 4);
    assert_eq!((r.x, r.y, r.width, r.height), (-5, -2, 4, 4));
}

#[test]
fn tick_plan_finds_monitor_and_region() {
    let ms = three_monitors();
    let (i, region) = plan_tick(&ms, 3000, 500).unwrap();
    assert_eq!(i, 1);
    assert_eq!((region.x, region.y, region.width), (3000 - LOUPE_SIZE / 2, 493, 15));
    assert!(plan_tick(&ms, 5000, 5000).is_none());
}

#[test]
fn overlay_spans_all_monitors() {
    let b = overlay_bounds(&three_monitors());
    assert_eq!((b.min_x, b.min_y, b.max_x, b.max_y), (-1080, 0, 3840, 1920));
    assert_eq!((b.width(), b.height()), (4920, 1920));
}

#[test]
fn overlay_is_monitors_bounding_box() {
    let b = overlay_bounds(&vec![MonitorInfo::new(1, 100, 50, 800, 600)]);
    assert_eq!((b.min_x, b.min_y, b.max_x, b.max_y), (100, 50, 900, 650));
    assert_eq!((b.width(), b.height()), (800, 600));
    let b = overlay_bounds(&vec![
        MonitorInfo::new(1, 2000, 100, 800, 600),
        MonitorInfo::new(2, 100, 900, 300, 200),
    ]);
    assert_eq!((b.min_x, b.min_y, b.max_x, b.max_y), (100, 100, 2800, 1100));
    let b = overlay_bounds(&Vec::new());
    assert_eq!((b.width(), b.height()), (0, 0));
}

#[test]
fn start_twice_spawns_once() {
    let mut s = PickingSession::new();
    let t = s.start();
    assert_eq!(t, Some(1));
    assert_eq!(s.start(), None);
    assert!(s.is_current(1));
    assert!(s.running);
}

#[test]
fn stop_then_start_retires_old_loop() {
    let mut s = PickingSession::new();
    let old = s.start().unwrap();
    s.stop();
    assert!(!s.is_current(old));
    let fresh = s.start().unwrap();
    assert_ne!(fresh, old);
    assert!(s.is_current(fresh));
    assert!(!s.is_current(old));
}

#[test]
fn generation_wraps() {
    let mut s = PickingSession { running: false, generation: u64::MAX };
    assert_eq!(s.start(), Some(0));
}

#[test]
fn query_reads_first_pixel() {
    assert_eq!(pixel_from_capture(&vec![1, 2, 3, 4], 7, -8), Ok((1, 2, 3, 7, -8)));
    assert_eq!(pixel_from_capture(&vec![9, 8, 7, 6, 5], 0, 0), Ok((9, 8, 7, 0, 0)));
}

#[test]
fn query_short_capture_is_error() {
    assert_eq!(pixel_from_capture(&vec![1, 2, 3], 0, 0), Err(QueryError::UndersizedBuffer));
    assert_eq!(pixel_from_capture(&Vec::new(), 0, 0), Err(QueryError::UndersizedBuffer));
    assert_eq!(QueryError::UndersizedBuffer.message(), "capture too small");
}

#[test]
fn query_outside_monitors_is_error() {
    let ms = three_monitors();
    assert_eq!(locate_pixel(&ms, 5000, 5000), Err(QueryError::NoMonitorAtPoint));
    assert_eq!(locate_pixel(&ms, 10, 10), Ok(0));
    assert_eq!(QueryError::NoMonitorAtPoint.message(), "no monitor found");
}

#[test]
fn bad_shortcut_then_good_one() {
    let mut reg = ShortcutRegistry::new();
    assert_eq!(reg.register("not a real shortcut!!"), Err(ShortcutError::InvalidShortcutSpec));
    assert!(reg.active.is_none());
    assert_eq!(reg.register("Ctrl+Shift+K"), Ok(()));
    assert!(reg.active.is_some());
}

#[test]
fn shortcut_replaced_and_cleared() {
    let mut reg = ShortcutRegistry::new();
    assert_eq!(reg.register("Ctrl+."), Ok(()));
    let first = reg.active.unwrap();
    assert_eq!(reg.register("Alt+K"), Ok(()));
    assert_ne!(reg.active.unwrap(), first);
    assert!(reg.register("Ctrl+K+Shift").is_err());
    assert!(reg.active.is_none());
    assert_eq!(ShortcutError::InvalidShortcutSpec.message(), "Invalid shortcut format");
}

#[test]
fn registered_shortcut_is_the_parsed_one() {
    let mut reg = ShortcutRegistry::new();
    assert!(reg.register("not a real shortcut!!").is_err());
    assert_eq!(reg.register("Ctrl+."), Ok(()));
    assert_eq!(reg.active, Some(HotKey::from_str("Ctrl+.").unwrap()));
    assert_eq!(reg.register("Ctrl+."), Ok(()));
    assert_eq!(reg.active, Some(HotKey::from_str("Ctrl+.").unwrap()));
}

#[test]
fn bind_replaces_previous() {
    let mut reg = ShortcutRegistry::new();
    let a = HotKey::from_str("Alt+A").unwrap();
    let b = HotKey::from_str("Shift+B").unwrap();
    assert_eq!(reg.bind(Some(a)), Ok(()));
    assert_eq!(reg.bind(Some(b)), Ok(()));
    assert_eq!(reg.active, Some(b));
    assert_eq!(reg.bind(None), Err(ShortcutError::InvalidShortcutSpec));
    assert_eq!(reg.active, None);
}

#[test]
fn query_error_messages() {
    assert_eq!(QueryError::EnumerationFailure.message(), "monitor enumeration failed");
    assert_eq!(QueryError::CaptureFailure.message(), "capture failed");
}
