//! Rules of the settings window: its tabs, the choices its dropdowns offer,
//! how the dropdowns are read from and written back to the configuration
//! file, the color swatch of a hexadecimal color field and the save status.

use vstd::prelude::*;
use vstd::string::*;
use vstd::utf8::is_char_boundary;

use crate::config::{
    lemma_names_parse_back, opt_view, position_or_default, scale_or_default,
    spec_parse_position, spec_parse_scale, spec_parse_theme, theme_or_default, FileConfig,
};
use crate::text::str_equals;

verus! {

/// A tab of the settings window.
#[derive(Debug, Clone, Copy, PartialEq, Eq, Structural)]
pub enum SettingsTab {
    General,
    Position,
    Keycap,
    Display,
    About,
}

/// The title of a tab.
pub open spec fn spec_tab_label(t: SettingsTab) -> Seq<char> {
    match t {
        SettingsTab::General => "General"@,
        SettingsTab::Position => "Position"@,
        SettingsTab::Keycap => "Keycap"@,
        SettingsTab::Display => "Display"@,
        SettingsTab::About => "About"@,
    }
}

impl SettingsTab {
    /// The title shown on the tab.
    pub fn label(self) -> (r: &'static str)
        ensures
            r@ == spec_tab_label(self),
    {
        match self {
            SettingsTab::General => "General",
            SettingsTab::Position => "Position",
            SettingsTab::Keycap => "Keycap",
            SettingsTab::Display => "Display",
            SettingsTab::About => "About",
        }
    }

    /// Every tab, in the order the tab bar shows them.
    pub fn all() -> (r: [SettingsTab; 5])
        ensures
            r@ == seq![
                SettingsTab::General,
                SettingsTab::Position,
                SettingsTab::Keycap,
                SettingsTab::Display,
                SettingsTab::About,
            ],
    {
        [
            SettingsTab::General,
            SettingsTab::Position,
            SettingsTab::Keycap,
            SettingsTab::Display,
            SettingsTab::About,
        ]
    }
}

/// A dropdown of the settings window.
#[derive(Debug, Clone, Copy, PartialEq, Eq, Structural)]
pub enum Choice {
    Position,
    Scale,
    Theme,
    KeycapStyle,
    AnimationType,
    TextCaps,
    TextVariant,
}

/// The options a dropdown offers, in the order it lists them.
pub open spec fn options(c: Choice) -> Seq<Seq<char>> {
    match c {
        Choice::Position => seq![
            "BottomCenter"@,
            "TopLeft"@,
            "TopRight"@,
            "TopCenter"@,
            "BottomLeft"@,
            "BottomRight"@,
            "Center"@,
        ],
        Choice::Scale => seq!["Small"@, "Medium"@, "Large"@, "ExtraLarge"@],
        Choice::Theme => seq!["Dark"@, "Light"@, "System"@],
        Choice::KeycapStyle => seq!["Minimal"@, "Laptop"@, "LowProfile"@, "PBT"@],
        Choice::AnimationType => seq!["None"@, "Fade"@, "Zoom"@, "Float"@, "Slide"@],
        Choice::TextCaps => seq!["Uppercase"@, "Capitalize"@, "Lowercase"@],
        Choice::TextVariant => seq!["Full"@, "Short"@, "Icon"@],
    }
}

/// The option a dropdown starts on when the file names none it knows:
/// `BottomCenter`, `Medium`, `Dark`, `Laptop`, `Slide`, `Uppercase` and `Full`.
pub open spec fn default_option(c: Choice) -> int {
    match c {
        Choice::Position => 0,
        Choice::Scale => 1,
        Choice::Theme => 0,
        Choice::KeycapStyle => 1,
        Choice::AnimationType => 4,
        Choice::TextCaps => 0,
        Choice::TextVariant => 0,
    }
}

/// Number of options of a dropdown.
pub fn option_count(c: Choice) -> (r: usize)
    ensures
        r == options(c).len(),
{
    match c {
        Choice::Position => 7,
        Choice::Scale => 4,
        Choice::Theme => 3,
        Choice::KeycapStyle => 4,
        Choice::AnimationType => 5,
        Choice::TextCaps => 3,
        Choice::TextVariant => 3,
    }
}

/// The `i`-th option of a dropdown.
pub fn option_name(c: Choice, i: usize) -> (r: &'static str)
    requires
        i < options(c).len(),
    ensures
        r@ == options(c)[i as int],
{
    match c {
        Choice::Position => {
            if i == 0 {
                "BottomCenter"
            } else if i == 1 {
                "TopLeft"
            } else if i == 2 {
                "TopRight"
            } else if i == 3 {
                "TopCenter"
            } else if i == 4 {
                "BottomLeft"
            } else if i == 5 {
                "BottomRight"
            } else {
                "Center"
            }
        },
        Choice::Scale => {
            if i == 0 {
                "Small"
            } else if i == 1 {
                "Medium"
            } else if i == 2 {
                "Large"
            } else {
                "ExtraLarge"
            }
        },
        Choice::Theme => {
            if i == 0 {
                "Dark"
            } else if i == 1 {
                "Light"
            } else {
                "System"
            }
        },
        Choice::KeycapStyle => {
            if i == 0 {
                "Minimal"
            } else if i == 1 {
                "Laptop"
            } else if i == 2 {
                "LowProfile"
            } else {
                "PBT"
            }
        },
        Choice::AnimationType => {
            if i == 0 {
                "None"
            } else if i == 1 {
                "Fade"
            } else if i == 2 {
                "Zoom"
            } else if i == 3 {
                "Float"
            } else {
                "Slide"
            }
        },
        Choice::TextCaps => {
            if i == 0 {
                "Uppercase"
            } else if i == 1 {
                "Capitalize"
            } else {
                "Lowercase"
            }
        },
        Choice::TextVariant => {
            if i == 0 {
                "Full"
            } else if i == 1 {
                "Short"
            } else {
                "Icon"
            }
        },
    }
}

/// `i` is the first option of the dropdown equal to `name`.
pub open spec fn first_option_at(c: Choice, name: Seq<char>, i: int) -> bool {
    &&& 0 <= i < options(c).len()
    &&& options(c)[i] == name
    &&& forall|j: int| 0 <= j < i ==> options(c)[j] != name
}

/// The option a dropdown shows for a file value: the first option spelled
/// like it, or the dropdown's default when the value is missing or unknown.
pub open spec fn selected_option(c: Choice, value: Option<Seq<char>>) -> int {
    match value {
        Some(name) => option_index(c, name),
        None => default_option(c),
    }
}

/// The first option spelled `name`, or the dropdown's default when none is.
pub open spec fn option_index(c: Choice, name: Seq<char>) -> int {
    if exists|i: int| first_option_at(c, name, i) {
        choose|i: int| first_option_at(c, name, i)
    } else {
        default_option(c)
    }
}

/// The option a dropdown shows for a file value.
pub fn select_option(c: Choice, value: &Option<String>) -> (r: usize)
    ensures
        r == selected_option(c, opt_view(*value)),
        r < options(c).len(),
{
    let default: usize = match c {
        Choice::Position => 0,
        Choice::Scale => 1,
        Choice::Theme => 0,
        Choice::KeycapStyle => 1,
        Choice::AnimationType => 4,
        Choice::TextCaps => 0,
        Choice::TextVariant => 0,
    };
    match value {
        Some(s) => {
            let n = option_count(c);
            let mut i: usize = 0;
            while i < n
                invariant
                    n == options(c).len(),
                    i <= n,
                    *value == Some(*s),
                    forall|j: int| 0 <= j < i ==> options(c)[j] != s@,
                decreases n - i,
            {
                if str_equals(s.as_str(), option_name(c, i)) {
                    proof {
                        assert(first_option_at(c, s@, i as int));
                        let k = choose|k: int| first_option_at(c, s@, k);
                        if k < i {
                            assert(options(c)[k] != s@);
                        }
                        if i < k {
                            assert(options(c)[i as int] != s@);
                        }
                    }
                    return i;
                }
                i = i + 1;
            }
            assert(!exists|k: int| first_option_at(c, s@, k));
            default
        },
        None => default,
    }
}

/// What the dropdowns of the settings window show.
#[derive(Debug, Clone, Copy, PartialEq, Eq, Structural)]
pub struct SettingsSelection {
    pub position_index: usize,
    pub scale_index: usize,
    pub theme_index: usize,
    pub keycap_style_index: usize,
    pub animation_type_index: usize,
    pub text_caps_index: usize,
    pub text_variant_index: usize,
}

impl SettingsSelection {
    /// Every index points at an option of its dropdown.
    pub open spec fn wf(self) -> bool {
        &&& self.position_index < options(Choice::Position).len()
        &&& self.scale_index < options(Choice::Scale).len()
        &&& self.theme_index < options(Choice::Theme).len()
        &&& self.keycap_style_index < options(Choice::KeycapStyle).len()
        &&& self.animation_type_index < options(Choice::AnimationType).len()
        &&& self.text_caps_index < options(Choice::TextCaps).len()
        &&& self.text_variant_index < options(Choice::TextVariant).len()
    }

    /// The dropdowns as they open on `config`.
    pub open spec fn of(config: FileConfig) -> SettingsSelection {
        SettingsSelection {
            position_index: selected_option(Choice::Position, opt_view(config.position)) as usize,
            scale_index: selected_option(Choice::Scale, opt_view(config.scale)) as usize,
            theme_index: selected_option(Choice::Theme, opt_view(config.theme)) as usize,
            keycap_style_index: selected_option(Choice::KeycapStyle, opt_view(config.keycap_style))
                as usize,
            animation_type_index: selected_option(
                Choice::AnimationType,
                opt_view(config.animation_type),
            ) as usize,
            text_caps_index: selected_option(Choice::TextCaps, opt_view(config.text_caps)) as usize,
            text_variant_index: selected_option(Choice::TextVariant, opt_view(config.text_variant))
                as usize,
        }
    }

    /// `after` is `before` with the dropdowns' choices written in.
    pub open spec fn synced(self, before: FileConfig, after: FileConfig) -> bool {
        &&& opt_view(after.position) == Some(options(Choice::Position)[self.position_index as int])
        &&& opt_view(after.scale) == Some(options(Choice::Scale)[self.scale_index as int])
        &&& opt_view(after.theme) == Some(options(Choice::Theme)[self.theme_index as int])
        &&& opt_view(after.keycap_style) == Some(
            options(Choice::KeycapStyle)[self.keycap_style_index as int],
        )
        &&& opt_view(after.animation_type) == Some(
            options(Choice::AnimationType)[self.animation_type_index as int],
        )
        &&& opt_view(after.text_caps) == Some(options(Choice::TextCaps)[self.text_caps_index as int])
        &&& opt_view(after.text_variant) == Some(
            options(Choice::TextVariant)[self.text_variant_index as int],
        )
        &&& after.opacity_bits == before.opacity_bits
        &&& after.display_duration_ms == before.display_duration_ms
        &&& after.history_length == before.history_length
        &&& after.monitor == before.monitor
    }

    /// The dropdowns as they open on `config`.
    pub fn from_config(config: &FileConfig) -> (r: SettingsSelection)
        ensures
            r == SettingsSelection::of(*config),
            r.wf(),
    {
        SettingsSelection {
            position_index: select_option(Choice::Position, &config.position),
            scale_index: select_option(Choice::Scale, &config.scale),
            theme_index: select_option(Choice::Theme, &config.theme),
            keycap_style_index: select_option(Choice::KeycapStyle, &config.keycap_style),
            animation_type_index: select_option(Choice::AnimationType, &config.animation_type),
            text_caps_index: select_option(Choice::TextCaps, &config.text_caps),
            text_variant_index: select_option(Choice::TextVariant, &config.text_variant),
        }
    }

    /// Writes the dropdowns' choices into `config`; other fields stay.
    pub fn sync_to_config(&self, config: &mut FileConfig)
        requires
            self.wf(),
        ensures
            self.synced(*old(config), *final(config)),
    {
        config.position = Some(String::from_str(option_name(Choice::Position, self.position_index)));
        config.scale = Some(String::from_str(option_name(Choice::Scale, self.scale_index)));
        config.theme = Some(String::from_str(option_name(Choice::Theme, self.theme_index)));
        config.keycap_style = Some(
            String::from_str(option_name(Choice::KeycapStyle, self.keycap_style_index)),
        );
        config.animation_type = Some(
            String::from_str(option_name(Choice::AnimationType, self.animation_type_index)),
        );
        config.text_caps = Some(String::from_str(option_name(Choice::TextCaps, self.text_caps_index)));
        config.text_variant = Some(
            String::from_str(option_name(Choice::TextVariant, self.text_variant_index)),
        );
    }
}

/// The dropdowns offer exactly the names the configuration understands.
pub proof fn lemma_options_are_the_known_names(s: Seq<char>)
    ensures
        spec_parse_position(s) is Some <==> options(Choice::Position).contains(s),
        spec_parse_scale(s) is Some <==> options(Choice::Scale).contains(s),
        spec_parse_theme(s) is Some <==> options(Choice::Theme).contains(s),
{
    reveal_strlit("TopLeft");
    reveal_strlit("TopRight");
    reveal_strlit("TopCenter");
    reveal_strlit("BottomLeft");
    reveal_strlit("BottomRight");
    reveal_strlit("BottomCenter");
    reveal_strlit("Center");
    reveal_strlit("Small");
    reveal_strlit("Medium");
    reveal_strlit("Large");
    reveal_strlit("ExtraLarge");
    reveal_strlit("Dark");
    reveal_strlit("Light");
    reveal_strlit("System");
    if spec_parse_position(s) is Some {
        assert(options(Choice::Position).contains(s));
    }
    if options(Choice::Position).contains(s) {
        let i = choose|i: int| 0 <= i < 7 && options(Choice::Position)[i] == s;
        assert(spec_parse_position(s) is Some);
    }
    if spec_parse_scale(s) is Some {
        assert(options(Choice::Scale).contains(s));
    }
    if options(Choice::Scale).contains(s) {
        let i = choose|i: int| 0 <= i < 4 && options(Choice::Scale)[i] == s;
        assert(spec_parse_scale(s) is Some);
    }
    if spec_parse_theme(s) is Some {
        assert(options(Choice::Theme).contains(s));
    }
    if options(Choice::Theme).contains(s) {
        let i = choose|i: int| 0 <= i < 3 && options(Choice::Theme)[i] == s;
        assert(spec_parse_theme(s) is Some);
    }
}

/// The first option spelled like a known name is that name.
proof fn lemma_selected_known(c: Choice, name: Seq<char>)
    requires
        options(c).contains(name),
    ensures
        options(c)[selected_option(c, Some(name))] == name,
        0 <= selected_option(c, Some(name)) < options(c).len(),
{
    let k = choose|k: int| 0 <= k < options(c).len() && options(c)[k] == name;
    lemma_least_occurrence(c, name, k);
}

/// A name that occurs in a dropdown occurs there a first time.
proof fn lemma_least_occurrence(c: Choice, name: Seq<char>, k: int)
    requires
        0 <= k < options(c).len(),
        options(c)[k] == name,
    ensures
        exists|i: int| first_option_at(c, name, i),
    decreases k,
{
    if forall|j: int| 0 <= j < k ==> options(c)[j] != name {
        assert(first_option_at(c, name, k));
    } else {
        let j = choose|j: int| 0 <= j < k && options(c)[j] == name;
        lemma_least_occurrence(c, name, j);
    }
}

/// The file value is one of the dropdown's options.
pub open spec fn is_offered(c: Choice, value: Option<Seq<char>>) -> bool {
    match value {
        Some(n) => options(c).contains(n),
        None => false,
    }
}

/// A dropdown opened on a file value writes that value back when it is one
/// of its options, and its default option otherwise.
pub proof fn lemma_dropdown_round_trip(c: Choice, value: Option<Seq<char>>)
    ensures
        0 <= selected_option(c, value) < options(c).len(),
        is_offered(c, value) ==> Some(options(c)[selected_option(c, value)]) == value,
        !is_offered(c, value) ==> selected_option(c, value) == default_option(c),
{
    match value {
        Some(n) => {
            if options(c).contains(n) {
                lemma_selected_known(c, n);
            } else {
                assert(!exists|i: int| first_option_at(c, n, i));
            }
        },
        None => {},
    }
}

/// Opening the settings window on a file and saving it without touching the
/// dropdowns never changes the overlay the file describes.
pub proof fn lemma_settings_keep_overlay(f: FileConfig, g: FileConfig)
    requires
        SettingsSelection::of(f).synced(f, g),
    ensures
        g.spec_overlay() == f.spec_overlay(),
{
    lemma_names_parse_back(
        crate::overlay::OverlayPosition::BottomCenter,
        crate::overlay::OverlayScale::Medium,
        crate::overlay::Theme::Dark,
    );
    reveal_strlit("BottomCenter");
    reveal_strlit("Medium");
    reveal_strlit("Dark");
    match f.position {
        Some(s) => {
            lemma_options_are_the_known_names(s@);
            if options(Choice::Position).contains(s@) {
                lemma_selected_known(Choice::Position, s@);
            }
        },
        None => {},
    }
    match f.scale {
        Some(s) => {
            lemma_options_are_the_known_names(s@);
            if options(Choice::Scale).contains(s@) {
                lemma_selected_known(Choice::Scale, s@);
            }
        },
        None => {},
    }
    match f.theme {
        Some(s) => {
            lemma_options_are_the_known_names(s@);
            if options(Choice::Theme).contains(s@) {
                lemma_selected_known(Choice::Theme, s@);
            }
        },
        None => {},
    }
    assert(position_or_default(g.position) == position_or_default(f.position));
    assert(scale_or_default(g.scale) == scale_or_default(f.scale));
    assert(theme_or_default(g.theme) == theme_or_default(f.theme));
}

/// The value of an ASCII hexadecimal digit.
pub open spec fn hex_digit(b: u8) -> Option<u8> {
    if 0x30 <= b <= 0x39 {
        Some((b - 0x30) as u8)
    } else if 0x61 <= b <= 0x66 {
        Some((b - 0x61 + 10) as u8)
    } else if 0x41 <= b <= 0x46 {
        Some((b - 0x41 + 10) as u8)
    } else {
        None
    }
}

/// A two-byte field read as a base-16 `u8` the way `u8::from_str_radix`
/// reads it: two hex digits, or a `+` sign and one hex digit; anything else
/// is no number.
pub open spec fn spec_hex_pair(b0: u8, b1: u8) -> Option<u8> {
    if b0 == 0x2B {
        hex_digit(b1)
    } else {
        match (hex_digit(b0), hex_digit(b1)) {
            (Some(h), Some(l)) => Some((h * 16 + l) as u8),
            _ => None,
        }
    }
}

/// A component of a swatch: the field's value, zero when it is no number.
pub open spec fn swatch_component(b0: u8, b1: u8) -> u8 {
    match spec_hex_pair(b0, b1) {
        Some(v) => v,
        None => 0,
    }
}

/// The swatch color a color field shows: for a value of at least seven bytes
/// that starts with `#`, the red, green and blue components read from bytes
/// 1–2, 3–4 and 5–6; no swatch otherwise.
pub open spec fn spec_swatch(bytes: Seq<u8>) -> Option<(u8, u8, u8)> {
    if bytes.len() >= 7 && bytes[0] == 0x23 {
        Some(
            (
                swatch_component(bytes[1], bytes[2]),
                swatch_component(bytes[3], bytes[4]),
                swatch_component(bytes[5], bytes[6]),
            ),
        )
    } else {
        None
    }
}

/// The lowercase hex digit that writes a value below 16.
pub open spec fn lower_hex_char(v: u8) -> u8 {
    if v < 10 {
        (0x30 + v) as u8
    } else {
        (0x61 + v - 10) as u8
    }
}

/// The uppercase hex digit that writes a value below 16.
pub open spec fn upper_hex_char(v: u8) -> u8 {
    if v < 10 {
        (0x30 + v) as u8
    } else {
        (0x41 + v - 10) as u8
    }
}

/// The two digits, high then low, that write `v` in base 16.
pub open spec fn hex_pair_chars(v: u8, upper: bool) -> (u8, u8) {
    if upper {
        (upper_hex_char(v / 16), upper_hex_char(v % 16))
    } else {
        (lower_hex_char(v / 16), lower_hex_char(v % 16))
    }
}

/// `#rrggbb` written out for a color, in lower- or uppercase digits.
pub open spec fn hex_color_bytes(r: u8, g: u8, b: u8, upper: bool) -> Seq<u8> {
    seq![
        0x23u8,
        hex_pair_chars(r, upper).0,
        hex_pair_chars(r, upper).1,
        hex_pair_chars(g, upper).0,
        hex_pair_chars(g, upper).1,
        hex_pair_chars(b, upper).0,
        hex_pair_chars(b, upper).1,
    ]
}

/// Every byte reads as the hex digit it is: `0`–`9` give 0–9, `a`–`f` and
/// `A`–`F` give 10–15, and no other byte is a digit.
pub proof fn lemma_hex_digits_read_their_value(b: u8)
    ensures
        0x30 <= b <= 0x39 ==> hex_digit(b) == Some((b - 0x30) as u8),
        0x61 <= b <= 0x66 ==> hex_digit(b) == Some((b - 0x57) as u8),
        0x41 <= b <= 0x46 ==> hex_digit(b) == Some((b - 0x37) as u8),
        !(0x30 <= b <= 0x39 || 0x61 <= b <= 0x66 || 0x41 <= b <= 0x46) ==> hex_digit(b)
            is None,
        hex_digit(b) matches Some(v) ==> v < 16,
{
}

/// Each value below 16, written as a lower- or uppercase digit, reads back
/// as that value.
pub proof fn lemma_hex_digit_reads_back(v: u8)
    requires
        v < 16,
    ensures
        hex_digit(lower_hex_char(v)) == Some(v),
        hex_digit(upper_hex_char(v)) == Some(v),
{
}

/// Two hex digits read as sixteen times the first plus the second, and the
/// two digits that write a byte read back as that byte.
pub proof fn lemma_hex_pair_reads_back(h: u8, l: u8, v: u8, upper: bool)
    ensures
        hex_digit(h) is Some && hex_digit(l) is Some ==> spec_hex_pair(h, l) == Some(
            (16 * hex_digit(h)->Some_0 + hex_digit(l)->Some_0) as u8,
        ),
        hex_digit(h) is Some && hex_digit(l) is Some ==> 16 * hex_digit(h)->Some_0 + hex_digit(
            l,
        )->Some_0 < 256,
        spec_hex_pair(hex_pair_chars(v, upper).0, hex_pair_chars(v, upper).1) == Some(v),
{
    lemma_hex_digits_read_their_value(h);
    lemma_hex_digits_read_their_value(l);
    assert(v == 16 * (v / 16) + v % 16) by (nonlinear_arith);
    assert(v / 16 < 16) by (nonlinear_arith);
    lemma_hex_digit_reads_back(v / 16);
    lemma_hex_digit_reads_back(v % 16);
}

/// A color written as `#rrggbb`, in lower- or uppercase digits, shows a
/// swatch of exactly that color.
pub proof fn lemma_swatch_reads_written_color(r: u8, g: u8, b: u8, upper: bool)
    ensures
        spec_swatch(hex_color_bytes(r, g, b, upper)) == Some((r, g, b)),
{
    lemma_hex_pair_reads_back(0, 0, r, upper);
    lemma_hex_pair_reads_back(0, 0, g, upper);
    lemma_hex_pair_reads_back(0, 0, b, upper);
    let s = hex_color_bytes(r, g, b, upper);
    assert(s.len() == 7 && s[0] == 0x23);
}

/// The two-byte fields of a swatch fall on character boundaries (else the
/// field cannot be cut out of the text).
pub open spec fn swatch_fields_on_boundaries(bytes: Seq<u8>) -> bool {
    bytes.len() >= 7 && bytes[0] == 0x23 ==> {
        &&& is_char_boundary(bytes, 3)
        &&& is_char_boundary(bytes, 5)
        &&& is_char_boundary(bytes, 7)
    }
}

fn hex_digit_value(b: u8) -> (r: Option<u8>)
    ensures
        r == hex_digit(b),
{
    if 0x30 <= b && b <= 0x39 {
        Some(b - 0x30)
    } else if 0x61 <= b && b <= 0x66 {
        Some(b - 0x61 + 10)
    } else if 0x41 <= b && b <= 0x46 {
        Some(b - 0x41 + 10)
    } else {
        None
    }
}

fn hex_pair_or_zero(b0: u8, b1: u8) -> (r: u8)
    ensures
        r == swatch_component(b0, b1),
{
    if b0 == 0x2B {
        match hex_digit_value(b1) {
            Some(v) => v,
            None => 0,
        }
    } else {
        match (hex_digit_value(b0), hex_digit_value(b1)) {
            (Some(h), Some(l)) => h * 16 + l,
            _ => 0,
        }
    }
}

/// The swatch color of a `#rrggbb` color field, if the field shows one.
pub fn swatch_rgb(value: &str) -> (r: Option<(u8, u8, u8)>)
    requires
        swatch_fields_on_boundaries(value.spec_bytes()),
    ensures
        r == spec_swatch(value.spec_bytes()),
{
    let bytes = value.as_bytes();
    if bytes.len() >= 7 && bytes[0] == 0x23 {
        let red = hex_pair_or_zero(bytes[1], bytes[2]);
        let green = hex_pair_or_zero(bytes[3], bytes[4]);
        let blue = hex_pair_or_zero(bytes[5], bytes[6]);
        Some((red, green, blue))
    } else {
        None
    }
}

/// The status line after saving: `Saved`, or `Error: ` and the error's text.
pub open spec fn spec_save_status(error: Option<Seq<char>>) -> Seq<char> {
    match error {
        None => "Saved"@,
        Some(e) => "Error: "@ + e,
    }
}

/// The status line after a save that failed with `error`, or succeeded.
pub fn save_status(error: Option<String>) -> (r: String)
    ensures
        r@ == spec_save_status(opt_view(error)),
{
    match error {
        None => String::from_str("Saved"),
        Some(e) => String::from_str("Error: ").concat(e.as_str()),
    }
}

/// How long a save status stays on screen (3 s), in nanoseconds.
pub const SAVE_STATUS_NS: u128 = 3_000_000_000;

/// Whether a save status set `elapsed_ns` ago is still shown.
pub fn save_status_visible(elapsed_ns: u128) -> (r: bool)
    ensures
        r == (elapsed_ns < SAVE_STATUS_NS),
{
    elapsed_ns < SAVE_STATUS_NS
}

/// Whether a status line reports success (and is shown in the success color).
pub fn is_success_status(status: &str) -> (r: bool)
    ensures
        r == (status@ == "Saved"@),
{
    str_equals(status, "Saved")
}

} // verus!
