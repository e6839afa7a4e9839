//! Input capture: what a capture provider offers, how the event processor is
//! configured, and the rules that turn raw Linux input events into key
//! events and pick keyboards among the input devices.

use vstd::prelude::*;

verus! {

/// Feature flags describing what a capture provider supports.
#[derive(Debug, Clone, Copy, PartialEq, Eq, Structural)]
pub struct CaptureFeatures {
    pub keyboard: bool,
    pub mouse: bool,
    pub scroll: bool,
    pub gamepad: bool,
    /// Provider can detect which application has focus.
    pub app_context: bool,
}

impl CaptureFeatures {
    /// The features of a provider that captures the keyboard and nothing else.
    pub fn keyboard_only() -> (r: CaptureFeatures)
        ensures
            r == (CaptureFeatures {
                keyboard: true,
                mouse: false,
                scroll: false,
                gamepad: false,
                app_context: false,
            }),
    {
        CaptureFeatures { keyboard: true, mouse: false, scroll: false, gamepad: false, app_context: false }
    }
}

impl Default for CaptureFeatures {
    /// No feature at all.
    fn default() -> (r: CaptureFeatures)
        ensures
            r == (CaptureFeatures {
                keyboard: false,
                mouse: false,
                scroll: false,
                gamepad: false,
                app_context: false,
            }),
    {
        CaptureFeatures {
            keyboard: false,
            mouse: false,
            scroll: false,
            gamepad: false,
            app_context: false,
        }
    }
}

/// Configuration for the event processor.
#[derive(Debug, Clone, Copy, PartialEq, Eq, Structural)]
pub struct ProcessorConfig {
    /// Maximum number of shortcuts to keep in history.
    pub history_length: usize,
    /// Whether to group modifier+key combos into single shortcuts.
    pub group_shortcuts: bool,
    /// Minimum time between duplicate events (deduplication), in nanoseconds.
    pub dedup_window_ns: u128,
}

impl Default for ProcessorConfig {
    /// Ten shortcuts of history, grouping on, a 50 ms deduplication window.
    fn default() -> (r: ProcessorConfig)
        ensures
            r == (ProcessorConfig {
                history_length: 10,
                group_shortcuts: true,
                dedup_window_ns: 50_000_000,
            }),
    {
        ProcessorConfig { history_length: 10, group_shortcuts: true, dedup_window_ns: 50_000_000 }
    }
}

/// Linux input event type of key events (`EV_KEY`).
pub const EV_KEY: u16 = 0x01;

/// Value of a key event that reports a press.
pub const KEY_VALUE_PRESS: i32 = 1;

/// Value of a key event that reports an auto-repeat.
pub const KEY_VALUE_REPEAT: i32 = 2;

/// Whether a key went down or up.
#[derive(Debug, Clone, Copy, PartialEq, Eq, Structural)]
pub enum KeyState {
    Pressed,
    Released,
}

/// A key event read from an input device, before key mapping.
#[derive(Debug, Clone, Copy, PartialEq, Eq, Structural)]
pub struct RawKeyEvent {
    /// The device's scan code.
    pub native_code: u32,
    pub state: KeyState,
}

/// The key event a raw input event stands for: none for events that are not
/// key events and for auto-repeats; a press for value 1, a release otherwise.
pub open spec fn spec_key_event(event_type: u16, code: u16, value: i32) -> Option<RawKeyEvent> {
    if event_type != EV_KEY || value == KEY_VALUE_REPEAT {
        None
    } else {
        Some(
            RawKeyEvent {
                native_code: code as u32,
                state: if value == KEY_VALUE_PRESS {
                    KeyState::Pressed
                } else {
                    KeyState::Released
                },
            },
        )
    }
}

/// Turns a raw input event (type, code, value) into a key event.
pub fn key_event_from_raw(event_type: u16, code: u16, value: i32) -> (r: Option<RawKeyEvent>)
    ensures
        r == spec_key_event(event_type, code, value),
{
    if event_type != EV_KEY {
        return None;
    }
    if value == KEY_VALUE_REPEAT {
        return None;
    }
    let state = if value == KEY_VALUE_PRESS {
        KeyState::Pressed
    } else {
        KeyState::Released
    };
    Some(RawKeyEvent { native_code: code as u32, state })
}

/// Scan code of the left control key.
pub const KEY_LEFTCTRL: u16 = 29;

/// Scan code of the left shift key.
pub const KEY_LEFTSHIFT: u16 = 42;

/// Scan code of the left alt key.
pub const KEY_LEFTALT: u16 = 56;

/// First scan code of the letter row range looked for (`KEY_A`).
pub const KEY_RANGE_FIRST: u16 = 30;

/// Last scan code of the letter row range looked for (`KEY_Z`'s code, 44).
pub const KEY_RANGE_LAST: u16 = 44;

/// A code that marks a device as a keyboard: one of the codes 30 to 44, or
/// left control, left shift or left alt.
pub open spec fn is_keyboard_code(code: u16) -> bool {
    ||| KEY_RANGE_FIRST <= code <= KEY_RANGE_LAST
    ||| code == KEY_LEFTCTRL
    ||| code == KEY_LEFTSHIFT
    ||| code == KEY_LEFTALT
}

/// Whether a device that supports the key codes `keys` counts as a keyboard.
pub fn looks_like_keyboard(keys: &Vec<u16>) -> (r: bool)
    ensures
        r == exists|i: int| 0 <= i < keys@.len() && is_keyboard_code(#[trigger] keys@[i]),
{
    let mut i: usize = 0;
    while i < keys.len()
        invariant
            i <= keys@.len(),
            forall|j: int| 0 <= j < i ==> !is_keyboard_code(#[trigger] keys@[j]),
        decreases keys@.len() - i,
    {
        let code = keys[i];
        if (KEY_RANGE_FIRST <= code && code <= KEY_RANGE_LAST) || code == KEY_LEFTCTRL || code
            == KEY_LEFTSHIFT || code == KEY_LEFTALT {
            return true;
        }
        i = i + 1;
    }
    false
}

/// Whether a key event is shown on the overlay: presses are, releases are not.
pub fn shows_on_overlay(event: &RawKeyEvent) -> (r: bool)
    ensures
        r == (event.state == KeyState::Pressed),
{
    match event.state {
        KeyState::Pressed => true,
        KeyState::Released => false,
    }
}

/// Pause of the capture loop after a pass that read events (100 µs), in microseconds.
pub const CAPTURE_BUSY_PAUSE_US: u64 = 100;

/// Pause of the capture loop after a pass that read nothing (5 ms), in microseconds.
pub const CAPTURE_IDLE_PAUSE_US: u64 = 5_000;

/// How long the capture loop sleeps after a pass over the devices: briefly
/// when events came in, longer when they were all idle.
pub fn capture_pause_us(had_events: bool) -> (r: u64)
    ensures
        r == if had_events {
            CAPTURE_BUSY_PAUSE_US
        } else {
            CAPTURE_IDLE_PAUSE_US
        },
{
    if had_events {
        CAPTURE_BUSY_PAUSE_US
    } else {
        CAPTURE_IDLE_PAUSE_US
    }
}

} // verus!
