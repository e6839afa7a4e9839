use echoinput::input::{
    capture_pause_us, key_event_from_raw, looks_like_keyboard, shows_on_overlay, CaptureFeatures,
    KeyState, ProcessorConfig, RawKeyEvent,
};

#[test]
fn capture_features() {
    let none = CaptureFeatures::default();
    assert!(!none.keyboard && !none.mouse && !none.scroll && !none.gamepad && !none.app_context);
    let kb = CaptureFeatures::keyboard_only();
    assert!(kb.keyboard);
    assert!(!kb.mouse && !kb.scroll && !kb.gamepad && !kb.app_context);
}

#[test]
fn processor_config_default() {
    let c = ProcessorConfig::default();
    assert_eq!(c.history_length, 10);
    assert!(c.group_shortcuts);
    assert_eq!(c.dedup_window_ns, std::time::Duration::from_millis(50).as_nanos());
}

#[test]
fn raw_events_become_key_events() {
    assert_eq!(key_event_from_raw(1, 30, 1), Some(RawKeyEvent { native_code: 30, state: KeyState::Pressed }));
    assert_eq!(key_event_from_raw(1, 30, 0), Some(RawKeyEvent { native_code: 30, state: KeyState::Released }));
    assert_eq!(key_event_from_raw(1, 30, 2), None);
    assert_eq!(key_event_from_raw(0, 0, 0), None);
    assert_eq!(key_event_from_raw(2, 1, 1), None);
    assert_eq!(key_event_from_raw(1, 125, 7), Some(RawKeyEvent { native_code: 125, state: KeyState::Released }));
}

#[test]
fn keyboards_are_told_apart() {
    assert!(looks_like_keyboard(&vec![272, 30]));
    assert!(looks_like_keyboard(&vec![44]));
    assert!(looks_like_keyboard(&vec![29]));
    assert!(looks_like_keyboard(&vec![42]));
    assert!(looks_like_keyboard(&vec![56]));
    assert!(!looks_like_keyboard(&vec![272, 273, 274]));
    assert!(!looks_like_keyboard(&vec![45, 28, 57]));
    assert!(!looks_like_keyboard(&vec![]));
}

#[test]
fn presses_are_shown_and_capture_pauses() {
    assert!(shows_on_overlay(&RawKeyEvent { native_code: 30, state: KeyState::Pressed }));
    assert!(!shows_on_overlay(&RawKeyEvent { native_code: 30, state: KeyState::Released }));
    assert_eq!(capture_pause_us(true), 100);
    assert_eq!(capture_pause_us(false), 5_000);
}
