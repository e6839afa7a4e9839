//! The overlay's display configuration.

use vstd::prelude::*;

verus! {

/// Where on the screen the overlay is anchored.
#[derive(Debug, Clone, Copy, PartialEq, Eq, Structural)]
pub enum OverlayPosition {
    TopLeft,
    TopRight,
    TopCenter,
    BottomLeft,
    BottomRight,
    BottomCenter,
    Center,
}

/// Size of the rendered keycaps.
#[derive(Debug, Clone, Copy, PartialEq, Eq, Structural)]
pub enum OverlayScale {
    Small,
    Medium,
    Large,
    ExtraLarge,
}

/// Color theme of the overlay.
#[derive(Debug, Clone, Copy, PartialEq, Eq, Structural)]
pub enum Theme {
    Dark,
    Light,
    System,
}

/// Runtime configuration of the overlay.
///
/// The opacity is carried as the bit pattern of an IEEE-754 single-precision
/// number in `0.0..=1.0`; this library never computes with it. Durations are
/// carried in nanoseconds, which holds every `std::time::Duration` exactly.
#[derive(Debug, Clone)]
pub struct OverlayConfig {
    pub position: OverlayPosition,
    pub scale: OverlayScale,
    pub opacity_bits: u32,
    pub display_duration_ns: u128,
    pub history_length: usize,
    pub theme: Theme,
    pub monitor: Option<String>,
}

/// The name of a position, as its variant is spelled.
pub open spec fn spec_position_name(p: OverlayPosition) -> Seq<char> {
    match p {
        OverlayPosition::TopLeft => "TopLeft"@,
        OverlayPosition::TopRight => "TopRight"@,
        OverlayPosition::TopCenter => "TopCenter"@,
        OverlayPosition::BottomLeft => "BottomLeft"@,
        OverlayPosition::BottomRight => "BottomRight"@,
        OverlayPosition::BottomCenter => "BottomCenter"@,
        OverlayPosition::Center => "Center"@,
    }
}

/// The name of a scale, as its variant is spelled.
pub open spec fn spec_scale_name(s: OverlayScale) -> Seq<char> {
    match s {
        OverlayScale::Small => "Small"@,
        OverlayScale::Medium => "Medium"@,
        OverlayScale::Large => "Large"@,
        OverlayScale::ExtraLarge => "ExtraLarge"@,
    }
}

/// The name of a theme, as its variant is spelled.
pub open spec fn spec_theme_name(t: Theme) -> Seq<char> {
    match t {
        Theme::Dark => "Dark"@,
        Theme::Light => "Light"@,
        Theme::System => "System"@,
    }
}

/// The variant name of a position.
pub fn position_name(p: OverlayPosition) -> (s: &'static str)
    ensures
        s@ == spec_position_name(p),
{
    match p {
        OverlayPosition::TopLeft => "TopLeft",
        OverlayPosition::TopRight => "TopRight",
        OverlayPosition::TopCenter => "TopCenter",
        OverlayPosition::BottomLeft => "BottomLeft",
        OverlayPosition::BottomRight => "BottomRight",
        OverlayPosition::BottomCenter => "BottomCenter",
        OverlayPosition::Center => "Center",
    }
}

/// The variant name of a scale.
pub fn scale_name(s: OverlayScale) -> (r: &'static str)
    ensures
        r@ == spec_scale_name(s),
{
    match s {
        OverlayScale::Small => "Small",
        OverlayScale::Medium => "Medium",
        OverlayScale::Large => "Large",
        OverlayScale::ExtraLarge => "ExtraLarge",
    }
}

/// The variant name of a theme.
pub fn theme_name(t: Theme) -> (r: &'static str)
    ensures
        r@ == spec_theme_name(t),
{
    match t {
        Theme::Dark => "Dark",
        Theme::Light => "Light",
        Theme::System => "System",
    }
}

/// The font size of a scale, in points: 16, 24, 32 or 48.
pub open spec fn spec_font_size_pt(s: OverlayScale) -> u32 {
    match s {
        OverlayScale::Small => 16,
        OverlayScale::Medium => 24,
        OverlayScale::Large => 32,
        OverlayScale::ExtraLarge => 48,
    }
}

/// The font size the overlay draws shortcuts at for a scale, in points.
pub fn font_size_pt(s: OverlayScale) -> (r: u32)
    ensures
        r == spec_font_size_pt(s),
{
    match s {
        OverlayScale::Small => 16,
        OverlayScale::Medium => 24,
        OverlayScale::Large => 32,
        OverlayScale::ExtraLarge => 48,
    }
}

/// A larger scale never draws smaller text.
pub proof fn lemma_font_size_grows_with_scale()
    ensures
        spec_font_size_pt(OverlayScale::Small) < spec_font_size_pt(OverlayScale::Medium),
        spec_font_size_pt(OverlayScale::Medium) < spec_font_size_pt(OverlayScale::Large),
        spec_font_size_pt(OverlayScale::Large) < spec_font_size_pt(OverlayScale::ExtraLarge),
{
}

/// A copy of an optional monitor name.
pub fn clone_monitor(m: &Option<String>) -> (r: Option<String>)
    ensures
        r == *m,
{
    match m {
        Some(s) => Some(s.clone()),
        None => None,
    }
}

} // verus!
