use echoinput::cli::{contains_arg, parse_log_level, run_mode, RunMode};
use echoinput::config::FileConfig;
use echoinput::settings::{
    is_success_status, option_count, option_name, save_status, save_status_visible, swatch_rgb,
    Choice, SettingsSelection, SettingsTab,
};

fn args(list: &[&str]) -> Vec<String> {
    list.iter().map(|s| s.to_string()).collect()
}

#[test]
fn log_level_precedence() {
    assert_eq!(parse_log_level(&args(&["echoinput", "--debug", "--trace"]), None), "trace");
    assert_eq!(parse_log_level(&args(&["echoinput", "--debug"]), Some("warn".into())), "debug");
    assert_eq!(parse_log_level(&args(&["echoinput"]), Some("warn".into())), "warn");
    assert_eq!(parse_log_level(&args(&["echoinput"]), None), "info");
    assert!(contains_arg(&args(&["a", "--x"]), "--x"));
    assert!(!contains_arg(&args(&["a", "--xy"]), "--x"));
}

#[test]
fn run_modes() {
    assert_eq!(run_mode(&args(&["echoinput"])), RunMode::Overlay);
    assert_eq!(run_mode(&args(&["echoinput", "--settings"])), RunMode::Settings);
    assert_eq!(run_mode(&args(&["echoinput", "--settings", "-h"])), RunMode::Help);
    assert_eq!(run_mode(&args(&["echoinput", "--help"])), RunMode::Help);
}

#[test]
fn tabs() {
    let labels: Vec<&str> = SettingsTab::all().iter().map(|t| t.label()).collect();
    assert_eq!(labels, vec!["General", "Position", "Keycap", "Display", "About"]);
}

#[test]
fn dropdowns_open_on_the_file_and_write_back() {
    assert_eq!(option_count(Choice::Position), 7);
    assert_eq!(option_name(Choice::Position, 0), "BottomCenter");
    assert_eq!(option_name(Choice::Scale, 3), "ExtraLarge");
    let mut file = FileConfig::default();
    file.position = Some("TopRight".into());
    file.scale = None;
    file.theme = Some("Purple".into());
    let sel = SettingsSelection::from_config(&file);
    assert_eq!(
        sel,
        SettingsSelection {
            position_index: 2,
            scale_index: 1,
            theme_index: 0,
            keycap_style_index: 1,
            animation_type_index: 4,
            text_caps_index: 0,
            text_variant_index: 0,
        }
    );
    let mut saved = file.clone();
    sel.sync_to_config(&mut saved);
    assert_eq!(saved.position.as_deref(), Some("TopRight"));
    assert_eq!(saved.scale.as_deref(), Some("Medium"));
    assert_eq!(saved.theme.as_deref(), Some("Dark"));
    assert_eq!(saved.history_length, file.history_length);
    assert_eq!(saved.keycap_style.as_deref(), Some("Laptop"));
    assert_eq!(saved.animation_type.as_deref(), Some("Slide"));
    assert_eq!(saved.text_caps.as_deref(), Some("Uppercase"));
    assert_eq!(saved.text_variant.as_deref(), Some("Full"));
    let a = file.to_overlay_config();
    let b = saved.to_overlay_config();
    assert_eq!((a.position, a.scale, a.theme), (b.position, b.scale, b.theme));
}

#[test]
fn every_dropdown_opens_on_known_values() {
    let file = FileConfig {
        position: Some("TopRight".into()),
        scale: Some("Huge".into()),
        theme: Some("Light".into()),
        keycap_style: None,
        animation_type: None,
        text_caps: Some("Lowercase".into()),
        text_variant: Some("full".into()),
        opacity_bits: None,
        display_duration_ms: None,
        history_length: None,
        monitor: None,
    };
    let sel = SettingsSelection::from_config(&file);
    assert_eq!(
        (
            sel.position_index,
            sel.scale_index,
            sel.theme_index,
            sel.keycap_style_index,
            sel.animation_type_index,
            sel.text_caps_index,
            sel.text_variant_index
        ),
        (2, 1, 1, 1, 4, 2, 0)
    );
    let mut saved = file.clone();
    sel.sync_to_config(&mut saved);
    assert_eq!(saved.scale.as_deref(), Some("Medium"));
    assert_eq!(saved.text_caps.as_deref(), Some("Lowercase"));
    assert_eq!(saved.text_variant.as_deref(), Some("Full"));
    assert_eq!(option_name(Choice::KeycapStyle, 3), "PBT");
    assert_eq!(option_count(Choice::AnimationType), 5);
}

#[test]
fn color_swatches() {
    assert_eq!(swatch_rgb("#ff8800"), Some((255, 136, 0)));
    assert_eq!(swatch_rgb("#FF8800aa"), Some((255, 136, 0)));
    assert_eq!(swatch_rgb("#+f0z01"), Some((15, 0, 1)));
    assert_eq!(swatch_rgb("#-10000"), Some((0, 0, 0)));
    assert_eq!(swatch_rgb("#fff"), None);
    assert_eq!(swatch_rgb("ff8800"), None);
    assert_eq!(swatch_rgb(""), None);
}

#[test]
fn save_statuses() {
    assert_eq!(save_status(None), "Saved");
    assert_eq!(save_status(Some("permission denied".into())), "Error: permission denied");
    assert!(is_success_status("Saved"));
    assert!(!is_success_status("Error: x"));
    assert!(save_status_visible(2_999_999_999));
    assert!(!save_status_visible(3_000_000_000));
}
