use novastar::debug::{Backend, DebugOverlay, backend_name};
use novastar::text::u64_to_dec;

fn overlay_at(width: u32, height: u32) -> DebugOverlay {
    DebugOverlay::new(Backend::Vulkan, width, height, String::from("rev0"), 1000)
}

#[test]
fn decimal_rendering_exact_values() {
    assert_eq!(u64_to_dec(0), "0");
    assert_eq!(u64_to_dec(7), "7");
    assert_eq!(u64_to_dec(10), "10");
    assert_eq!(u64_to_dec(12345), "12345");
    assert_eq!(u64_to_dec(u64::MAX), "18446744073709551615");
}

#[test]
fn backend_names() {
    assert_eq!(backend_name(Backend::Noop), "Noop");
    assert_eq!(backend_name(Backend::Vulkan), "Vulkan");
    assert_eq!(backend_name(Backend::Metal), "Metal");
    assert_eq!(backend_name(Backend::Dx12), "Dx12");
    assert_eq!(backend_name(Backend::Gl), "Gl");
    assert_eq!(backend_name(Backend::BrowserWebGpu), "BrowserWebGpu");
}

#[test]
fn sample_not_updated_within_window() {
    let mut o = overlay_at(100, 100);
    o.fps = 7;
    let f1 = o.render(1100);
    let f2 = o.render(1499);
    // Two samples taken less than the window apart are identical.
    assert_eq!(o.fps, 7);
    assert_eq!(f1.info_text, f2.info_text);
    assert_eq!(o.window_start_ms, 1000);
    assert_eq!(o.frame_count, 2);
}

#[test]
fn sample_updates_once_window_elapses() {
    let mut o = overlay_at(100, 100);
    o.render(1100);
    o.render(1499);
    // Third frame lands exactly one window after the start: three frames
    // over 500 ms make 6 whole frames per second.
    o.render(1500);
    assert_eq!(o.fps, 6);
    assert_eq!(o.window_start_ms, 1500);
    assert_eq!(o.frame_count, 0);
}

#[test]
fn info_block_text_and_anchors() {
    let mut o = overlay_at(640, 480);
    o.render(1100);
    o.render(1500); // two frames over 500 ms: 4 whole frames per second
    let f = o.render(1700);
    assert_eq!(f.info_text, "FPS: 4\nBackend: Vulkan\nSurface: 640x480");
    assert_eq!((f.info_x, f.info_y), (10, 10));
    assert_eq!(f.build_text, "rev0");
    assert_eq!((f.build_x, f.build_y), (10, 450));
    assert_eq!(f.scale, 26);
}

#[test]
fn build_anchor_clamps_on_short_surfaces() {
    let mut o = overlay_at(100, 20);
    let f = o.render(1001);
    assert_eq!(f.build_y, 0);
}

#[test]
fn resize_only_changes_reported_size() {
    let mut o = overlay_at(100, 100);
    o.render(1100);
    o.handle_resize(320, 240);
    assert_eq!((o.width, o.height), (320, 240));
    assert_eq!(o.frame_count, 1);
    assert_eq!(o.window_start_ms, 1000);
    let f = o.render(1101);
    assert_eq!(f.info_text, "FPS: 0\nBackend: Vulkan\nSurface: 320x240");
}

#[test]
fn clock_going_backwards_counts_no_elapsed_time() {
    let mut o = overlay_at(100, 100);
    o.fps = 9;
    o.render(400); // before the window start: no update possible
    assert_eq!(o.fps, 9);
    assert_eq!(o.window_start_ms, 1000);
    assert_eq!(o.frame_count, 1);
}
