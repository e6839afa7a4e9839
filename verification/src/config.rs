//! The configuration file's contents and their conversion to the overlay's
//! runtime configuration.

use vstd::prelude::*;
use vstd::string::*;

use crate::overlay::{
    clone_monitor, position_name, scale_name, spec_position_name, spec_scale_name, spec_theme_name,
    theme_name, OverlayConfig, OverlayPosition, OverlayScale, Theme,
};
use crate::text::str_equals;

verus! {

/// Display duration used when the file names none (milliseconds).
pub const DISPLAY_DURATION_MS_DEFAULT: u64 = 1500;

/// Bit pattern of the single-precision opacity 0.9, used when the file names none.
pub const OPACITY_BITS_DEFAULT: u32 = 0x3F66_6666;

/// History length used when the file names none.
pub const HISTORY_LENGTH_DEFAULT: usize = 3;

/// Nanoseconds in a millisecond.
pub const NANOS_PER_MILLI: u128 = 1_000_000;

/// File-backed configuration.
///
/// All fields are optional; a missing field falls back to its default when
/// the configuration is turned into an `OverlayConfig`. The opacity is the bit
/// pattern of a single-precision number. The keycap style, animation type and
/// label capitalization and variant are choices of the settings window, which
/// the overlay configuration does not carry.
#[derive(Debug, Clone)]
pub struct FileConfig {
    pub position: Option<String>,
    pub scale: Option<String>,
    pub opacity_bits: Option<u32>,
    pub display_duration_ms: Option<u64>,
    pub history_length: Option<usize>,
    pub theme: Option<String>,
    pub monitor: Option<String>,
    /// Keycap style chosen in the settings window.
    pub keycap_style: Option<String>,
    /// Animation type chosen in the settings window.
    pub animation_type: Option<String>,
    /// Capitalization of key labels chosen in the settings window.
    pub text_caps: Option<String>,
    /// Key label variant chosen in the settings window.
    pub text_variant: Option<String>,
}

/// The view of an optional string.
pub open spec fn opt_view(o: Option<String>) -> Option<Seq<char>> {
    match o {
        Some(s) => Some(s@),
        None => None,
    }
}

/// The position a name denotes, if any.
pub open spec fn spec_parse_position(s: Seq<char>) -> Option<OverlayPosition> {
    if s == "TopLeft"@ {
        Some(OverlayPosition::TopLeft)
    } else if s == "TopRight"@ {
        Some(OverlayPosition::TopRight)
    } else if s == "TopCenter"@ {
        Some(OverlayPosition::TopCenter)
    } else if s == "BottomLeft"@ {
        Some(OverlayPosition::BottomLeft)
    } else if s == "BottomRight"@ {
        Some(OverlayPosition::BottomRight)
    } else if s == "BottomCenter"@ {
        Some(OverlayPosition::BottomCenter)
    } else if s == "Center"@ {
        Some(OverlayPosition::Center)
    } else {
        None
    }
}

/// The scale a name denotes, if any.
pub open spec fn spec_parse_scale(s: Seq<char>) -> Option<OverlayScale> {
    if s == "Small"@ {
        Some(OverlayScale::Small)
    } else if s == "Medium"@ {
        Some(OverlayScale::Medium)
    } else if s == "Large"@ {
        Some(OverlayScale::Large)
    } else if s == "ExtraLarge"@ {
        Some(OverlayScale::ExtraLarge)
    } else {
        None
    }
}

/// The theme a name denotes, if any.
pub open spec fn spec_parse_theme(s: Seq<char>) -> Option<Theme> {
    if s == "Dark"@ {
        Some(Theme::Dark)
    } else if s == "Light"@ {
        Some(Theme::Light)
    } else if s == "System"@ {
        Some(Theme::System)
    } else {
        None
    }
}

/// Parses a position name; names are matched exactly, case included.
pub fn parse_position(s: &str) -> (r: Option<OverlayPosition>)
    ensures
        r == spec_parse_position(s@),
{
    if str_equals(s, "TopLeft") {
        Some(OverlayPosition::TopLeft)
    } else if str_equals(s, "TopRight") {
        Some(OverlayPosition::TopRight)
    } else if str_equals(s, "TopCenter") {
        Some(OverlayPosition::TopCenter)
    } else if str_equals(s, "BottomLeft") {
        Some(OverlayPosition::BottomLeft)
    } else if str_equals(s, "BottomRight") {
        Some(OverlayPosition::BottomRight)
    } else if str_equals(s, "BottomCenter") {
        Some(OverlayPosition::BottomCenter)
    } else if str_equals(s, "Center") {
        Some(OverlayPosition::Center)
    } else {
        None
    }
}

/// Parses a scale name; names are matched exactly, case included.
pub fn parse_scale(s: &str) -> (r: Option<OverlayScale>)
    ensures
        r == spec_parse_scale(s@),
{
    if str_equals(s, "Small") {
        Some(OverlayScale::Small)
    } else if str_equals(s, "Medium") {
        Some(OverlayScale::Medium)
    } else if str_equals(s, "Large") {
        Some(OverlayScale::Large)
    } else if str_equals(s, "ExtraLarge") {
        Some(OverlayScale::ExtraLarge)
    } else {
        None
    }
}

/// Parses a theme name; names are matched exactly, case included.
pub fn parse_theme(s: &str) -> (r: Option<Theme>)
    ensures
        r == spec_parse_theme(s@),
{
    if str_equals(s, "Dark") {
        Some(Theme::Dark)
    } else if str_equals(s, "Light") {
        Some(Theme::Light)
    } else if str_equals(s, "System") {
        Some(Theme::System)
    } else {
        None
    }
}

/// The position an optional name gives, `BottomCenter` when it is missing or unknown.
pub open spec fn position_or_default(o: Option<String>) -> OverlayPosition {
    match o {
        Some(s) => match spec_parse_position(s@) {
            Some(p) => p,
            None => OverlayPosition::BottomCenter,
        },
        None => OverlayPosition::BottomCenter,
    }
}

/// The scale an optional name gives, `Medium` when it is missing or unknown.
pub open spec fn scale_or_default(o: Option<String>) -> OverlayScale {
    match o {
        Some(s) => match spec_parse_scale(s@) {
            Some(x) => x,
            None => OverlayScale::Medium,
        },
        None => OverlayScale::Medium,
    }
}

/// The theme an optional name gives, `Dark` when it is missing or unknown.
pub open spec fn theme_or_default(o: Option<String>) -> Theme {
    match o {
        Some(s) => match spec_parse_theme(s@) {
            Some(t) => t,
            None => Theme::Dark,
        },
        None => Theme::Dark,
    }
}

impl FileConfig {
    /// The overlay configuration this file describes, defaults filled in.
    pub open spec fn spec_overlay(self) -> OverlayConfig {
        OverlayConfig {
            position: position_or_default(self.position),
            scale: scale_or_default(self.scale),
            opacity_bits: match self.opacity_bits {
                Some(b) => b,
                None => OPACITY_BITS_DEFAULT,
            },
            display_duration_ns: ((match self.display_duration_ms {
                Some(ms) => ms,
                None => DISPLAY_DURATION_MS_DEFAULT,
            }) as u128 * NANOS_PER_MILLI) as u128,
            history_length: match self.history_length {
                Some(n) => n,
                None => HISTORY_LENGTH_DEFAULT,
            },
            theme: theme_or_default(self.theme),
            monitor: self.monitor,
        }
    }

    /// Every field holds what the shipped default file holds.
    pub open spec fn is_default_file(self) -> bool {
        &&& opt_view(self.position) == Some("BottomCenter"@)
        &&& opt_view(self.scale) == Some("Medium"@)
        &&& self.opacity_bits == Some(OPACITY_BITS_DEFAULT)
        &&& self.display_duration_ms == Some(DISPLAY_DURATION_MS_DEFAULT)
        &&& self.history_length == Some(HISTORY_LENGTH_DEFAULT)
        &&& opt_view(self.theme) == Some("Dark"@)
        &&& self.monitor is None
        &&& self.keycap_style is None
        &&& self.animation_type is None
        &&& self.text_caps is None
        &&& self.text_variant is None
    }

    /// Every overlay field is present and spells out the corresponding setting
    /// of `c`, the display duration in whole milliseconds (truncated to 64
    /// bits); the settings window's keycap and text choices are unset.
    pub open spec fn mirrors(self, c: OverlayConfig) -> bool {
        &&& opt_view(self.position) == Some(spec_position_name(c.position))
        &&& opt_view(self.scale) == Some(spec_scale_name(c.scale))
        &&& self.opacity_bits == Some(c.opacity_bits)
        &&& self.display_duration_ms == Some((c.display_duration_ns / NANOS_PER_MILLI) as u64)
        &&& self.history_length == Some(c.history_length)
        &&& opt_view(self.theme) == Some(spec_theme_name(c.theme))
        &&& self.monitor == c.monitor
        &&& self.keycap_style is None
        &&& self.animation_type is None
        &&& self.text_caps is None
        &&& self.text_variant is None
    }

    /// Both files hold the same settings.
    pub open spec fn same_settings(self, other: FileConfig) -> bool {
        &&& opt_view(self.position) == opt_view(other.position)
        &&& opt_view(self.scale) == opt_view(other.scale)
        &&& self.opacity_bits == other.opacity_bits
        &&& self.display_duration_ms == other.display_duration_ms
        &&& self.history_length == other.history_length
        &&& opt_view(self.theme) == opt_view(other.theme)
        &&& opt_view(self.monitor) == opt_view(other.monitor)
    }

    /// Every field is present and each name denotes a known setting.
    pub open spec fn is_complete(self) -> bool {
        &&& self.position matches Some(s) && spec_parse_position(s@) is Some
        &&& self.scale matches Some(s) && spec_parse_scale(s@) is Some
        &&& self.opacity_bits is Some
        &&& self.display_duration_ms is Some
        &&& self.history_length is Some
        &&& self.theme matches Some(s) && spec_parse_theme(s@) is Some
    }

    /// Converts to an `OverlayConfig`, filling in defaults for missing or
    /// unknown fields.
    pub fn to_overlay_config(&self) -> (r: OverlayConfig)
        ensures
            r == self.spec_overlay(),
    {
        let position = match &self.position {
            Some(s) => match parse_position(s.as_str()) {
                Some(p) => p,
                None => OverlayPosition::BottomCenter,
            },
            None => OverlayPosition::BottomCenter,
        };
        let scale = match &self.scale {
            Some(s) => match parse_scale(s.as_str()) {
                Some(x) => x,
                None => OverlayScale::Medium,
            },
            None => OverlayScale::Medium,
        };
        let theme = match &self.theme {
            Some(s) => match parse_theme(s.as_str()) {
                Some(t) => t,
                None => Theme::Dark,
            },
            None => Theme::Dark,
        };
        let opacity_bits = match self.opacity_bits {
            Some(b) => b,
            None => OPACITY_BITS_DEFAULT,
        };
        let ms = match self.display_duration_ms {
            Some(ms) => ms,
            None => DISPLAY_DURATION_MS_DEFAULT,
        };
        let history_length = match self.history_length {
            Some(n) => n,
            None => HISTORY_LENGTH_DEFAULT,
        };
        OverlayConfig {
            position,
            scale,
            opacity_bits,
            display_duration_ns: ms as u128 * NANOS_PER_MILLI,
            history_length,
            theme,
            monitor: clone_monitor(&self.monitor),
        }
    }

    /// Builds a file configuration that records every setting of `config`
    /// (for saving the current state).
    pub fn from_overlay_config(config: &OverlayConfig) -> (r: FileConfig)
        ensures
            r.mirrors(*config),
    {
        let ms: u64 = #[verifier::truncate] ((config.display_duration_ns / NANOS_PER_MILLI) as u64);
        FileConfig {
            position: Some(String::from_str(position_name(config.position))),
            scale: Some(String::from_str(scale_name(config.scale))),
            opacity_bits: Some(config.opacity_bits),
            display_duration_ms: Some(ms),
            history_length: Some(config.history_length),
            theme: Some(String::from_str(theme_name(config.theme))),
            monitor: clone_monitor(&config.monitor),
            keycap_style: None,
            animation_type: None,
            text_caps: None,
            text_variant: None,
        }
    }

    /// The configuration read from disk when it parsed, the default file otherwise.
    pub fn or_defaults(parsed: Option<FileConfig>) -> (r: FileConfig)
        ensures
            match parsed {
                Some(c) => r == c,
                None => r.is_default_file(),
            },
    {
        match parsed {
            Some(c) => c,
            None => FileConfig::default(),
        }
    }
}

impl Default for FileConfig {
    /// The shipped default file: every overlay field set to its default, no
    /// monitor, no keycap or text choice.
    fn default() -> (r: FileConfig)
        ensures
            r.is_default_file(),
    {
        proof {
            reveal_strlit("BottomCenter");
            reveal_strlit("Medium");
            reveal_strlit("Dark");
        }
        FileConfig {
            position: Some(String::from_str("BottomCenter")),
            scale: Some(String::from_str("Medium")),
            opacity_bits: Some(OPACITY_BITS_DEFAULT),
            display_duration_ms: Some(DISPLAY_DURATION_MS_DEFAULT),
            history_length: Some(HISTORY_LENGTH_DEFAULT),
            theme: Some(String::from_str("Dark")),
            monitor: None,
            keycap_style: None,
            animation_type: None,
            text_caps: None,
            text_variant: None,
        }
    }
}


/// The names of the settings are distinct and each parses back to the
/// setting it names.
pub proof fn lemma_names_parse_back(p: OverlayPosition, x: OverlayScale, t: Theme)
    ensures
        spec_parse_position(spec_position_name(p)) == Some(p),
        spec_parse_scale(spec_scale_name(x)) == Some(x),
        spec_parse_theme(spec_theme_name(t)) == Some(t),
{
    reveal_strlit("TopLeft");
    reveal_strlit("TopRight");
    reveal_strlit("TopCenter");
    reveal_strlit("BottomLeft");
    reveal_strlit("BottomRight");
    reveal_strlit("BottomCenter");
    reveal_strlit("Center");
    reveal_strlit("Small");
    reveal_strlit("Medium");
    reveal_strlit("Large");
    reveal_strlit("ExtraLarge");
    reveal_strlit("Dark");
    reveal_strlit("Light");
    reveal_strlit("System");
    assert("TopLeft"@.len() == 7);
    assert("TopRight"@.len() == 8);
    assert("TopCenter"@.len() == 9);
    assert("BottomLeft"@.len() == 10);
    assert("BottomRight"@.len() == 11);
    assert("BottomCenter"@.len() == 12);
    assert("Center"@.len() == 6);
    assert("Small"@[0] != "Large"@[0]);
    assert("Medium"@.len() == 6);
    assert("ExtraLarge"@.len() == 10);
    assert("Dark"@.len() == 4);
    assert("Light"@.len() == 5);
    assert("System"@.len() == 6);
}

/// A name that parses is the name of what it parses to.
pub proof fn lemma_parsed_names_are_canonical(s: Seq<char>)
    ensures
        spec_parse_position(s) matches Some(p) ==> spec_position_name(p) == s,
        spec_parse_scale(s) matches Some(x) ==> spec_scale_name(x) == s,
        spec_parse_theme(s) matches Some(t) ==> spec_theme_name(t) == s,
{
}

/// Recording an overlay configuration in a file and reading the file back
/// gives the same configuration, whenever its display duration is a whole
/// number of milliseconds that fits in 64 bits.
pub proof fn lemma_overlay_survives_file(f: FileConfig, c: OverlayConfig)
    requires
        f.mirrors(c),
        c.display_duration_ns % NANOS_PER_MILLI == 0,
        c.display_duration_ns / NANOS_PER_MILLI <= u64::MAX,
    ensures
        f.spec_overlay() == c,
{
    lemma_names_parse_back(c.position, c.scale, c.theme);
}

/// A file whose every field is present and known survives being turned into
/// an overlay configuration and recorded again.
pub proof fn lemma_file_survives_overlay(f: FileConfig, g: FileConfig)
    requires
        f.is_complete(),
        g.mirrors(f.spec_overlay()),
    ensures
        g.same_settings(f),
{
    lemma_parsed_names_are_canonical(f.position.unwrap()@);
    lemma_parsed_names_are_canonical(f.scale.unwrap()@);
    lemma_parsed_names_are_canonical(f.theme.unwrap()@);
    let ms = f.display_duration_ms.unwrap();
    assert(((ms as int * 1_000_000) as u128) / 1_000_000u128 == ms) by (nonlinear_arith)
        requires
            ms <= u64::MAX,
    ;
}

/// The default file describes the default overlay: bottom center, medium
/// scale, opacity 0.9, 1500 ms, three shortcuts, dark theme, default output.
pub proof fn lemma_default_file_overlay(f: FileConfig)
    requires
        f.is_default_file(),
    ensures
        f.spec_overlay() == (OverlayConfig {
            position: OverlayPosition::BottomCenter,
            scale: OverlayScale::Medium,
            opacity_bits: OPACITY_BITS_DEFAULT,
            display_duration_ns: 1_500_000_000,
            history_length: 3,
            theme: Theme::Dark,
            monitor: None,
        }),
{
    lemma_names_parse_back(OverlayPosition::BottomCenter, OverlayScale::Medium, Theme::Dark);
}

/// Each field missing from the file takes its documented default: bottom
/// center, medium scale, opacity 0.9 (bits 0x3F66_6666), 1500 ms, three
/// shortcuts, dark theme; each present value is taken as it is.
pub proof fn lemma_missing_fields_take_defaults(f: FileConfig)
    ensures
        f.position is None ==> f.spec_overlay().position == OverlayPosition::BottomCenter,
        f.scale is None ==> f.spec_overlay().scale == OverlayScale::Medium,
        f.opacity_bits is None ==> f.spec_overlay().opacity_bits == 0x3F66_6666u32,
        f.display_duration_ms is None ==> f.spec_overlay().display_duration_ns == 1_500_000_000u128,
        f.history_length is None ==> f.spec_overlay().history_length == 3usize,
        f.theme is None ==> f.spec_overlay().theme == Theme::Dark,
        f.opacity_bits matches Some(b) ==> f.spec_overlay().opacity_bits == b,
        f.display_duration_ms matches Some(ms) ==> f.spec_overlay().display_duration_ns == ms
            * 1_000_000,
        f.history_length matches Some(n) ==> f.spec_overlay().history_length == n,
        f.monitor == f.spec_overlay().monitor,
{
}

/// A name that the file spells the way a setting is named gives that setting;
/// any other name gives the default.
pub proof fn lemma_named_fields_give_their_setting(f: FileConfig)
    ensures
        f.position matches Some(s) && s@ == "TopRight"@ ==> f.spec_overlay().position
            == OverlayPosition::TopRight,
        f.position matches Some(s) && spec_parse_position(s@) is None ==> f.spec_overlay().position
            == OverlayPosition::BottomCenter,
        f.scale matches Some(s) && s@ == "Large"@ ==> f.spec_overlay().scale == OverlayScale::Large,
        f.scale matches Some(s) && spec_parse_scale(s@) is None ==> f.spec_overlay().scale
            == OverlayScale::Medium,
        f.theme matches Some(s) && s@ == "Light"@ ==> f.spec_overlay().theme == Theme::Light,
        f.theme matches Some(s) && spec_parse_theme(s@) is None ==> f.spec_overlay().theme
            == Theme::Dark,
{
    lemma_names_parse_back(OverlayPosition::TopRight, OverlayScale::Large, Theme::Light);
}

} // verus!
