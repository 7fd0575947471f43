use ambition_inventory_ui::showcase::{readme_demo_key_for_frame, CaptureProgress, ShowcaseKey};

#[test]
fn scripted_keys_land_on_their_frames() {
    assert_eq!(readme_demo_key_for_frame(30, 60), Some(ShowcaseKey::KeyP));
    assert_eq!(readme_demo_key_for_frame(81, 60), Some(ShowcaseKey::KeyP));
    assert_eq!(readme_demo_key_for_frame(31, 60), None);
    assert_eq!(readme_demo_key_for_frame(822, 60), Some(ShowcaseKey::KeyC));
    assert_eq!(readme_demo_key_for_frame(780, 60), Some(ShowcaseKey::PageDown));
    assert_eq!(readme_demo_key_for_frame(15, 30), Some(ShowcaseKey::KeyP));
    assert_eq!(readme_demo_key_for_frame(0, 0), Some(ShowcaseKey::KeyP));
    assert_eq!(readme_demo_key_for_frame(1, 0), None);
}

#[test]
fn frame_numbers_wrap_at_32_bits() {
    assert_eq!(readme_demo_key_for_frame(3006477094, u32::MAX), Some(ShowcaseKey::KeyC));
}

#[test]
fn capture_settings_fall_back_to_defaults() {
    let c = CaptureProgress::from_settings(None, None, Some(0), Some(600));
    assert_eq!(c.frame_count, 60);
    assert_eq!(c.warmup_frames_remaining, 30);
    assert_eq!(c.window_resolution(), (1180, 600));
    let c = CaptureProgress::from_settings(Some(0), Some(0), None, None);
    assert_eq!(c.frame_count, 60);
    assert_eq!(c.warmup_frames_remaining, 0);
    assert_eq!(c.window_resolution(), (1180, 760));
    assert_eq!(c.next_frame, 0);
    assert!(!c.is_complete());
}

#[test]
fn capture_runs_one_screenshot_per_frame() {
    let mut c = CaptureProgress::from_settings(Some(2), Some(1), None, None);
    assert_eq!(c.current_frame_name(), "frame_0000.png");
    assert!(!c.request_frame());
    assert_eq!(c.warmup_frames_remaining, 0);
    assert!(c.request_frame());
    assert!(c.waiting_for_capture);
    assert!(!c.request_frame());
    assert!(!c.advance_frame(true));
    assert!(c.capture_started);
    assert!(!c.advance_frame(false));
    assert_eq!(c.next_frame, 0);
    assert!(!c.advance_frame(true));
    assert_eq!(c.next_frame, 1);
    assert_eq!(c.current_frame_name(), "frame_0001.png");
    assert!(c.request_frame());
    assert!(!c.advance_frame(true));
    assert!(c.advance_frame(true));
    assert!(c.is_complete());
    assert!(!c.request_frame());
    assert!(!c.advance_frame(true));
}

#[test]
fn frame_names_are_zero_padded() {
    let mut c = CaptureProgress::from_settings(Some(20000), None, None, None);
    c.next_frame = 42;
    assert_eq!(c.current_frame_name(), "frame_0042.png");
    c.next_frame = 999;
    assert_eq!(c.current_frame_name(), "frame_0999.png");
    c.next_frame = 12345;
    assert_eq!(c.current_frame_name(), "frame_12345.png");
}
