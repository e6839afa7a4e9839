use echoinput::animation::{Animation, AnimationState, OpacityLevel, FADE_DURATION_NS};
use echoinput::overlay::{OverlayConfig, OverlayPosition, OverlayScale, Theme};

const MS: u128 = 1_000_000;

fn config(display_ms: u128, opacity: f32) -> OverlayConfig {
    OverlayConfig {
        position: OverlayPosition::BottomCenter,
        scale: OverlayScale::Medium,
        opacity_bits: opacity.to_bits(),
        display_duration_ns: display_ms * MS,
        history_length: 3,
        theme: Theme::Dark,
        monitor: None,
    }
}

#[test]
fn new_animation_is_idle_and_transparent() {
    let mut a = Animation::new(&config(1500, 0.9));
    assert_eq!(a.state(), AnimationState::Idle);
    assert!(!a.is_visible());
    assert_eq!(a.current_opacity(), OpacityLevel::Exact(0));
    assert!(!a.tick_at(10 * MS));
    assert_eq!(a.time_until_fade_at(0), 0);
}

#[test]
fn show_then_fade_then_idle() {
    let opacity = 0.9f32.to_bits();
    let mut a = Animation::new(&config(1500, 0.9));
    a.show_at(opacity, 100 * MS);
    assert_eq!(a.state(), AnimationState::Visible);
    assert_eq!(a.current_opacity(), OpacityLevel::Exact(opacity));
    // first tick redraws the freshly shown overlay
    assert!(a.tick_at(101 * MS));
    assert!(!a.tick_at(102 * MS));
    assert_eq!(a.time_until_fade_at(600 * MS), 1000 * MS);
    // display duration over: starts fading
    assert!(a.tick_at(1600 * MS));
    assert_eq!(a.state(), AnimationState::Fading);
    assert_eq!(a.time_until_fade_at(1700 * MS), 0);
    assert!(a.tick_at(1750 * MS));
    assert_eq!(
        a.current_opacity(),
        OpacityLevel::Fading { target_bits: opacity, elapsed_ns: 150 * MS, fade_ns: FADE_DURATION_NS }
    );
    // fade over: idle and transparent
    assert!(a.tick_at(1900 * MS));
    assert_eq!(a.state(), AnimationState::Idle);
    assert_eq!(a.current_opacity(), OpacityLevel::Exact(0));
    assert!(!a.tick_at(2000 * MS));
}

#[test]
fn clock_going_backwards_counts_as_no_time() {
    let mut a = Animation::new(&config(1500, 0.5));
    a.show_at(0.5f32.to_bits(), 500 * MS);
    assert!(a.tick_at(100 * MS));
    assert_eq!(a.state(), AnimationState::Visible);
    assert_eq!(a.time_until_fade_at(100 * MS), 1500 * MS);
}

#[test]
fn update_config_changes_visible_opacity_only() {
    let mut a = Animation::new(&config(1500, 0.9));
    a.update_config(&config(2000, 0.4));
    assert_eq!(a.current_opacity(), OpacityLevel::Exact(0));
    a.show_at(0.9f32.to_bits(), 0);
    a.update_config(&config(2000, 0.4));
    assert_eq!(a.current_opacity(), OpacityLevel::Exact(0.4f32.to_bits()));
    assert_eq!(a.state(), AnimationState::Visible);
    assert_eq!(a.time_until_fade_at(500 * MS), 1500 * MS);
}

#[test]
fn fading_uses_the_latest_target_opacity() {
    let mut a = Animation::new(&config(100, 0.9));
    a.show_at(0.9f32.to_bits(), 0);
    assert!(a.tick_at(100 * MS));
    assert_eq!(a.state(), AnimationState::Fading);
    a.update_config(&config(100, 0.6));
    assert!(a.tick_at(200 * MS));
    assert_eq!(
        a.current_opacity(),
        OpacityLevel::Fading { target_bits: 0.6f32.to_bits(), elapsed_ns: 100 * MS, fade_ns: FADE_DURATION_NS }
    );
}

#[test]
fn clock_driven_operations_run() {
    let mut a = Animation::new(&config(1500, 0.9));
    a.show(0.9f32.to_bits());
    assert!(a.tick());
    assert_eq!(a.state(), AnimationState::Visible);
    assert!(a.time_until_fade() <= 1500 * MS);
}
