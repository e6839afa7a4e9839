use echoinput::config::{parse_position, parse_scale, parse_theme, FileConfig};
use echoinput::overlay::{font_size_pt, OverlayConfig, OverlayPosition, OverlayScale, Theme};
use std::time::Duration;

#[test]
fn test_file_config_defaults() {
    let config = FileConfig::default();
    assert_eq!(config.position.as_deref(), Some("BottomCenter"));
    assert_eq!(config.scale.as_deref(), Some("Medium"));
    assert_eq!(config.opacity_bits.map(f32::from_bits), Some(0.9));
    assert_eq!(config.display_duration_ms, Some(1500));
    assert_eq!(config.history_length, Some(3));
    assert_eq!(config.theme.as_deref(), Some("Dark"));
    assert!(config.monitor.is_none());
}

#[test]
fn test_to_overlay_config() {
    let file_config = FileConfig::default();
    let overlay_config = file_config.to_overlay_config();
    assert_eq!(overlay_config.position, OverlayPosition::BottomCenter);
    assert_eq!(overlay_config.scale, OverlayScale::Medium);
    assert_eq!(f32::from_bits(overlay_config.opacity_bits), 0.9);
    assert_eq!(overlay_config.display_duration_ns, Duration::from_millis(1500).as_nanos());
    assert_eq!(overlay_config.history_length, 3);
    assert_eq!(overlay_config.theme, Theme::Dark);
}

#[test]
fn test_roundtrip() {
    let original = FileConfig {
        position: Some("TopLeft".into()),
        scale: Some("Large".into()),
        opacity_bits: Some(0.7f32.to_bits()),
        display_duration_ms: Some(2000),
        history_length: Some(5),
        theme: Some("Light".into()),
        monitor: Some("DP-1".into()),
        ..FileConfig::default()
    };

    let overlay_config = original.to_overlay_config();
    let restored = FileConfig::from_overlay_config(&overlay_config);

    assert_eq!(restored.position.as_deref(), Some("TopLeft"));
    assert_eq!(restored.scale.as_deref(), Some("Large"));
    assert_eq!(restored.opacity_bits.map(f32::from_bits), Some(0.7));
    assert_eq!(restored.display_duration_ms, Some(2000));
    assert_eq!(restored.history_length, Some(5));
    assert_eq!(restored.theme.as_deref(), Some("Light"));
    assert_eq!(restored.monitor.as_deref(), Some("DP-1"));
}

#[test]
fn test_parse_position_valid() {
    assert_eq!(parse_position("TopLeft"), Some(OverlayPosition::TopLeft));
    assert_eq!(parse_position("BottomCenter"), Some(OverlayPosition::BottomCenter));
    assert_eq!(parse_position("Center"), Some(OverlayPosition::Center));
}

#[test]
fn test_parse_position_invalid() {
    assert_eq!(parse_position("invalid"), None);
    assert_eq!(parse_position(""), None);
}

#[test]
fn parse_names_are_case_sensitive() {
    assert_eq!(parse_position("topleft"), None);
    assert_eq!(parse_position("TopLeft "), None);
    assert_eq!(parse_scale("medium"), None);
    assert_eq!(parse_theme("dark"), None);
}

#[test]
fn parse_every_scale_and_theme() {
    assert_eq!(parse_scale("Small"), Some(OverlayScale::Small));
    assert_eq!(parse_scale("Medium"), Some(OverlayScale::Medium));
    assert_eq!(parse_scale("Large"), Some(OverlayScale::Large));
    assert_eq!(parse_scale("ExtraLarge"), Some(OverlayScale::ExtraLarge));
    assert_eq!(parse_scale("Huge"), None);
    assert_eq!(parse_theme("Dark"), Some(Theme::Dark));
    assert_eq!(parse_theme("Light"), Some(Theme::Light));
    assert_eq!(parse_theme("System"), Some(Theme::System));
    assert_eq!(parse_theme(""), None);
}

#[test]
fn missing_and_unknown_fields_take_defaults() {
    let partial = FileConfig {
        position: Some("TopRight".into()),
        scale: Some("Gigantic".into()),
        opacity_bits: Some(0.5f32.to_bits()),
        display_duration_ms: None,
        history_length: None,
        theme: Some("Neon".into()),
        monitor: None,
        ..FileConfig::default()
    };
    let overlay = partial.to_overlay_config();
    assert_eq!(overlay.position, OverlayPosition::TopRight);
    assert_eq!(overlay.scale, OverlayScale::Medium);
    assert_eq!(f32::from_bits(overlay.opacity_bits), 0.5);
    assert_eq!(overlay.display_duration_ns, 1_500_000_000);
    assert_eq!(overlay.history_length, 3);
    assert_eq!(overlay.theme, Theme::Dark);
    assert!(overlay.monitor.is_none());
}

#[test]
fn overlay_survives_file_round_trip() {
    let overlay = OverlayConfig {
        position: OverlayPosition::BottomRight,
        scale: OverlayScale::ExtraLarge,
        opacity_bits: 0.25f32.to_bits(),
        display_duration_ns: 3_000_000_000,
        history_length: 7,
        theme: Theme::System,
        monitor: Some("HDMI-A-1".into()),
    };
    let file = FileConfig::from_overlay_config(&overlay);
    assert_eq!(file.position.as_deref(), Some("BottomRight"));
    assert_eq!(file.scale.as_deref(), Some("ExtraLarge"));
    assert_eq!(file.theme.as_deref(), Some("System"));
    assert!(file.keycap_style.is_none() && file.animation_type.is_none());
    assert!(file.text_caps.is_none() && file.text_variant.is_none());
    let back = file.to_overlay_config();
    assert_eq!(back.position, overlay.position);
    assert_eq!(back.scale, overlay.scale);
    assert_eq!(back.opacity_bits, overlay.opacity_bits);
    assert_eq!(back.display_duration_ns, overlay.display_duration_ns);
    assert_eq!(back.history_length, overlay.history_length);
    assert_eq!(back.theme, overlay.theme);
    assert_eq!(back.monitor, overlay.monitor);
}

#[test]
fn sub_millisecond_durations_are_truncated_in_the_file() {
    let overlay = OverlayConfig {
        position: OverlayPosition::Center,
        scale: OverlayScale::Small,
        opacity_bits: 1.0f32.to_bits(),
        display_duration_ns: 1_999_999,
        history_length: 1,
        theme: Theme::Light,
        monitor: None,
    };
    let file = FileConfig::from_overlay_config(&overlay);
    assert_eq!(file.display_duration_ms, Some(1));
    assert_eq!(file.to_overlay_config().display_duration_ns, 1_000_000);
}

#[test]
fn unreadable_file_falls_back_to_defaults() {
    let fallback = FileConfig::or_defaults(None);
    assert_eq!(fallback.position.as_deref(), Some("BottomCenter"));
    assert_eq!(fallback.history_length, Some(3));
    let parsed = FileConfig {
        position: None,
        scale: None,
        opacity_bits: None,
        display_duration_ms: Some(10),
        history_length: None,
        theme: None,
        monitor: Some("eDP-1".into()),
        ..FileConfig::default()
    };
    let kept = FileConfig::or_defaults(Some(parsed));
    assert!(kept.position.is_none());
    assert_eq!(kept.display_duration_ms, Some(10));
    assert_eq!(kept.monitor.as_deref(), Some("eDP-1"));
}

#[test]
fn scales_set_font_sizes() {
    assert_eq!(font_size_pt(OverlayScale::Small), 16);
    assert_eq!(font_size_pt(OverlayScale::Medium), 24);
    assert_eq!(font_size_pt(OverlayScale::Large), 32);
    assert_eq!(font_size_pt(OverlayScale::ExtraLarge), 48);
}
