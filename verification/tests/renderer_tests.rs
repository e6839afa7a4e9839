use echoinput::animation::OpacityLevel;
use echoinput::error::WaylandError;
use echoinput::overlay::{OverlayConfig, OverlayPosition, OverlayScale, Theme};
use echoinput::outputs::{OutputEvent, OutputRegistry, BASE_HEIGHT, BASE_WIDTH};
use echoinput::renderer::{
    buffer_layout, id_from_unix_nanos, position_to_anchor_bits, rand_id, WaylandRendererFactory,
};
use echoinput::session::{DisplayEvent, FrameAction, OverlayCommand, OverlaySession, RendererCommand};

fn config(monitor: Option<&str>, position: OverlayPosition) -> OverlayConfig {
    OverlayConfig {
        position,
        scale: OverlayScale::Medium,
        opacity_bits: 0.9f32.to_bits(),
        display_duration_ns: 1_500_000_000,
        history_length: 3,
        theme: Theme::Dark,
        monitor: monitor.map(|m| m.to_string()),
    }
}

#[test]
fn factory_names_its_platform() {
    let factory = WaylandRendererFactory::new();
    assert_eq!(factory.platform_name(), "wayland");
    assert_eq!(WaylandRendererFactory::default(), factory);
}

#[test]
fn anchors_follow_layer_shell_edges() {
    assert_eq!(position_to_anchor_bits(OverlayPosition::TopLeft), 1 | 4);
    assert_eq!(position_to_anchor_bits(OverlayPosition::TopRight), 1 | 8);
    assert_eq!(position_to_anchor_bits(OverlayPosition::TopCenter), 1);
    assert_eq!(position_to_anchor_bits(OverlayPosition::BottomLeft), 2 | 4);
    assert_eq!(position_to_anchor_bits(OverlayPosition::BottomRight), 2 | 8);
    assert_eq!(position_to_anchor_bits(OverlayPosition::BottomCenter), 2);
    assert_eq!(position_to_anchor_bits(OverlayPosition::Center), 0);
}

#[test]
fn ids_come_from_unix_nanoseconds() {
    assert_eq!(id_from_unix_nanos(Some(42)), 42);
    assert_eq!(id_from_unix_nanos(Some((1u128 << 64) + 7)), 7);
    assert_eq!(id_from_unix_nanos(None), 0);
    assert!(rand_id() > 0);
}

#[test]
fn buffer_layout_is_four_bytes_per_pixel() {
    assert_eq!(buffer_layout(BASE_WIDTH, BASE_HEIGHT), (1600, 192_000));
    assert_eq!(buffer_layout(BASE_WIDTH * 2, BASE_HEIGHT * 2), (3200, 768_000));
}

fn registry() -> OutputRegistry<&'static str> {
    let mut outputs = OutputRegistry::new();
    outputs.add_output("proxy-a", 3, 40);
    outputs.add_output("proxy-b", 4, 41);
    outputs
}

#[test]
fn outputs_get_names_scales_and_modes() {
    let mut outputs = registry();
    assert_eq!(outputs.outputs()[0].name, "");
    assert_eq!(outputs.outputs()[0].scale, 1);
    outputs.apply_output_event(3, OutputEvent::Geometry { make: String::new() });
    assert_eq!(outputs.outputs()[0].name, "output-3");
    outputs.apply_output_event(4, OutputEvent::Geometry { make: "DELL".into() });
    assert_eq!(outputs.outputs()[1].name, "DELL");
    outputs.apply_output_event(4, OutputEvent::Scale { factor: 2 });
    assert_eq!(outputs.outputs()[1].scale, 2);
    outputs.apply_output_event(4, OutputEvent::Mode { width: 800, height: 600, flags: Some(2) });
    assert_eq!((outputs.outputs()[1].width, outputs.outputs()[1].height), (0, 0));
    outputs.apply_output_event(4, OutputEvent::Mode { width: 2560, height: 1440, flags: Some(3) });
    assert_eq!((outputs.outputs()[1].width, outputs.outputs()[1].height), (2560, 1440));
    outputs.apply_output_event(4, OutputEvent::Mode { width: 1, height: 1, flags: None });
    assert_eq!(outputs.outputs()[1].width, 2560);
    // events about unknown outputs change nothing
    outputs.apply_output_event(99, OutputEvent::Scale { factor: 5 });
    assert_eq!(outputs.outputs()[0].scale, 1);
    assert_eq!(outputs.outputs()[1].scale, 2);
}

#[test]
fn outputs_are_found_by_monitor_and_proxy() {
    let mut outputs = registry();
    outputs.apply_output_event(4, OutputEvent::Geometry { make: "DELL".into() });
    assert_eq!(outputs.find_output(None), Some(0));
    assert_eq!(outputs.find_output(Some("DELL")), Some(1));
    assert_eq!(outputs.find_output(Some("LG")), None);
    assert_eq!(outputs.find_output_proxy(Some("DELL")), Some(&"proxy-b"));
    assert_eq!(outputs.find_output_proxy(None), Some(&"proxy-a"));
    assert_eq!(outputs.find_output_index_by_proxy_id(4), Some(1));
    assert_eq!(outputs.find_output_index_by_proxy_id(5), None);
    let empty: OutputRegistry<u8> = OutputRegistry::new();
    assert_eq!(empty.find_output(None), None);
}

#[test]
fn removing_a_global_drops_output_and_proxy() {
    let mut outputs = registry();
    assert_eq!(outputs.remove_global(77), None);
    assert_eq!(outputs.remove_global(40), Some(0));
    assert_eq!(outputs.outputs().len(), 1);
    assert_eq!(outputs.outputs()[0].global_id, 41);
    assert_eq!(outputs.find_output_proxy(None), Some(&"proxy-b"));
}

#[test]
fn surface_plan_uses_selected_output_scale() {
    let mut outputs = registry();
    outputs.apply_output_event(4, OutputEvent::Geometry { make: "DELL".into() });
    outputs.apply_output_event(4, OutputEvent::Scale { factor: 2 });
    let plan = outputs.plan_surface(&config(Some("DELL"), OverlayPosition::TopRight));
    assert_eq!(plan.output, Some(1));
    assert_eq!(plan.scale, 2);
    assert_eq!(plan.anchor, 1 | 8);
    assert_eq!((plan.width, plan.height), (800, 240));
    assert_eq!(plan.layer_size(), (800, 240));
    assert_eq!(plan.exclusive_zone, -1);
    assert!(!plan.keyboard_interactive);
    assert!(plan.input_region_empty);
    let fallback = outputs.plan_surface(&config(Some("missing"), OverlayPosition::Center));
    assert_eq!(fallback.output, None);
    assert_eq!(fallback.scale, 1);
    assert_eq!((fallback.width, fallback.height), (400, 120));
    let first = outputs.plan_surface(&config(None, OverlayPosition::BottomCenter));
    assert_eq!(first.output, Some(0));
    assert_eq!(first.anchor, 2);
}

#[test]
fn surface_commit_requests_are_taken_once() {
    let mut outputs = registry();
    assert!(!outputs.take_surface_commit());
    outputs.request_surface_commit();
    assert!(outputs.take_surface_commit());
    assert!(!outputs.take_surface_commit());
}

#[test]
fn session_draws_a_shortcut_then_stops() {
    let mut session = OverlaySession::new(config(None, OverlayPosition::BottomCenter));
    assert!(session.is_running());
    assert_eq!(session.idle_sleep_ms(), 50);
    assert_eq!(session.frame(), FrameAction::Keep);
    session.handle_display_event(DisplayEvent::Shortcut("Ctrl+C".into()));
    assert_eq!(session.combos(), &vec!["Ctrl+C".to_string()]);
    assert_eq!(session.drawn_count(), 1);
    assert!(session.is_visible());
    assert_eq!(session.idle_sleep_ms(), 16);
    let now = session.now();
    assert_eq!(session.frame_at(now), FrameAction::Draw(OpacityLevel::Exact(0.9f32.to_bits())));
    assert_eq!(session.frame_at(now), FrameAction::Keep);
    // long after the display and fade durations the overlay is taken down
    let later = now + 10_000_000_000;
    assert_eq!(session.frame_at(later), FrameAction::Draw(OpacityLevel::Exact(0.9f32.to_bits())));
    assert_eq!(session.frame_at(later + 1_000_000_000), FrameAction::Hide);
    assert!(!session.is_visible());
    assert_eq!(session.frame_at(later + 2_000_000_000), FrameAction::Keep);
    session.handle_renderer_command(RendererCommand::Stop);
    assert!(!session.is_running());
}

#[test]
fn session_history_clear_and_config() {
    let mut session = OverlaySession::new(config(None, OverlayPosition::BottomCenter));
    session.handle_renderer_command(RendererCommand::Update(DisplayEvent::History(vec![
        "Alt+Tab".into(),
        "Ctrl+S".into(),
    ])));
    assert_eq!(session.combos().len(), 2);
    assert_eq!(session.drawn_count(), 2);
    assert!(session.is_visible());
    let mut quieter = config(Some("DP-1"), OverlayPosition::TopLeft);
    quieter.opacity_bits = 0.3f32.to_bits();
    session.handle_display_event(DisplayEvent::UpdateConfig(quieter));
    assert_eq!(session.config().position, OverlayPosition::TopLeft);
    let now = session.now();
    assert_eq!(session.frame_at(now), FrameAction::Draw(OpacityLevel::Exact(0.3f32.to_bits())));
    session.handle_display_event(DisplayEvent::Clear);
    assert!(session.combos().is_empty());
    assert!(!session.is_visible());
}

#[test]
fn drawn_shortcuts_follow_history_length() {
    let mut session = OverlaySession::new(config(None, OverlayPosition::BottomCenter));
    assert_eq!(session.drawn_count(), 0);
    session.handle_display_event(DisplayEvent::History(vec![
        "A".into(),
        "B".into(),
        "C".into(),
        "D".into(),
        "E".into(),
    ]));
    assert_eq!(session.drawn_count(), 3);
    let mut one = config(None, OverlayPosition::BottomCenter);
    one.history_length = 1;
    session.handle_display_event(DisplayEvent::UpdateConfig(one));
    assert_eq!(session.drawn_count(), 1);
    let mut ten = config(None, OverlayPosition::BottomCenter);
    ten.history_length = 10;
    session.handle_overlay_command(OverlayCommand::UpdateConfig(ten));
    assert_eq!(session.drawn_count(), 5);
}

#[test]
fn session_overlay_commands() {
    let mut session = OverlaySession::new(config(None, OverlayPosition::BottomCenter));
    assert!(!session.handle_overlay_command(OverlayCommand::Stop));
    assert!(!session.is_running());
    assert!(!session.handle_overlay_command(OverlayCommand::Start));
    assert!(session.is_running());
    session.handle_display_event(DisplayEvent::Shortcut("Super".into()));
    assert!(session.handle_overlay_command(OverlayCommand::Restart));
    assert!(session.combos().is_empty());
    assert!(!session.is_visible());
    session.handle_display_event(DisplayEvent::Shortcut("Super".into()));
    assert!(!session.handle_overlay_command(OverlayCommand::Clear));
    assert!(session.combos().is_empty());
    let mut longer = config(None, OverlayPosition::Center);
    longer.display_duration_ns = 9;
    assert!(!session.handle_overlay_command(OverlayCommand::UpdateConfig(longer)));
    assert_eq!(session.config().display_duration_ns, 9);
}

#[test]
fn error_messages() {
    assert_eq!(
        WaylandError::Connection("refused".into()).message(),
        "Wayland connection failed: refused"
    );
    assert_eq!(
        WaylandError::MissingProtocol("wl_shm".into()).message(),
        "Required Wayland protocol not available: wl_shm"
    );
    assert_eq!(WaylandError::NoOutputs.message(), "No monitors found");
    assert_eq!(WaylandError::OutputNotFound("DP-2".into()).message(), "Monitor not found: DP-2");
    assert_eq!(WaylandError::ShmAllocation("mmap failed".into()).message(), "SHM allocation failed: mmap failed");
    assert_eq!(WaylandError::Cairo("oom".into()).message(), "Cairo rendering error: oom");
    assert_eq!(WaylandError::EventLoopClosed.message(), "Event loop closed");
    assert_eq!(WaylandError::ChannelSend("closed".into()).message(), "Channel send failed: closed");
}
