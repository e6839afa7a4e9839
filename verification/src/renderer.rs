//! The Wayland overlay renderer's factory, the layer-shell anchor of each
//! position, the sizes of shared-memory buffers and the identifiers that
//! name them.

use vstd::prelude::*;

use crate::overlay::OverlayPosition;

verus! {

/// Factory for Wayland overlay renderers.
#[derive(Debug, Clone, Copy, PartialEq, Eq, Structural)]
pub struct WaylandRendererFactory;

impl WaylandRendererFactory {
    /// A new factory.
    pub fn new() -> (r: WaylandRendererFactory)
        ensures
            r == WaylandRendererFactory,
    {
        WaylandRendererFactory
    }

    /// The name of the platform the factory renders on.
    pub fn platform_name(&self) -> (r: &'static str)
        ensures
            r@ == "wayland"@,
    {
        "wayland"
    }
}

impl Default for WaylandRendererFactory {
    fn default() -> (r: WaylandRendererFactory)
        ensures
            r == WaylandRendererFactory,
    {
        WaylandRendererFactory::new()
    }
}

/// Layer-shell anchor bit of the top edge.
pub const ANCHOR_TOP: u32 = 1;

/// Layer-shell anchor bit of the bottom edge.
pub const ANCHOR_BOTTOM: u32 = 2;

/// Layer-shell anchor bit of the left edge.
pub const ANCHOR_LEFT: u32 = 4;

/// Layer-shell anchor bit of the right edge.
pub const ANCHOR_RIGHT: u32 = 8;

/// The position sits at the top of the screen.
pub open spec fn at_top(p: OverlayPosition) -> bool {
    p == OverlayPosition::TopLeft || p == OverlayPosition::TopRight || p
        == OverlayPosition::TopCenter
}

/// The position sits at the bottom of the screen.
pub open spec fn at_bottom(p: OverlayPosition) -> bool {
    p == OverlayPosition::BottomLeft || p == OverlayPosition::BottomRight || p
        == OverlayPosition::BottomCenter
}

/// The position sits at the left of the screen.
pub open spec fn at_left(p: OverlayPosition) -> bool {
    p == OverlayPosition::TopLeft || p == OverlayPosition::BottomLeft
}

/// The position sits at the right of the screen.
pub open spec fn at_right(p: OverlayPosition) -> bool {
    p == OverlayPosition::TopRight || p == OverlayPosition::BottomRight
}

/// The anchor bits of a position: one bit per screen edge the overlay
/// touches; a centered axis touches neither of its edges.
pub open spec fn spec_anchor_bits(p: OverlayPosition) -> u32 {
    ((if at_top(p) { ANCHOR_TOP } else { 0 }) + (if at_bottom(p) { ANCHOR_BOTTOM } else { 0 })
        + (if at_left(p) { ANCHOR_LEFT } else { 0 }) + (if at_right(p) { ANCHOR_RIGHT } else {
        0
    })) as u32
}

/// The layer-shell anchor of a position.
pub fn position_to_anchor_bits(pos: OverlayPosition) -> (bits: u32)
    ensures
        bits == spec_anchor_bits(pos),
{
    match pos {
        OverlayPosition::TopLeft => ANCHOR_TOP + ANCHOR_LEFT,
        OverlayPosition::TopRight => ANCHOR_TOP + ANCHOR_RIGHT,
        OverlayPosition::TopCenter => ANCHOR_TOP,
        OverlayPosition::BottomLeft => ANCHOR_BOTTOM + ANCHOR_LEFT,
        OverlayPosition::BottomRight => ANCHOR_BOTTOM + ANCHOR_RIGHT,
        OverlayPosition::BottomCenter => ANCHOR_BOTTOM,
        OverlayPosition::Center => 0,
    }
}

/// An anchor never pulls to two opposite edges at once, and no two positions
/// share an anchor.
pub proof fn lemma_anchors_are_consistent(p: OverlayPosition, q: OverlayPosition)
    ensures
        spec_anchor_bits(p) < 16,
        spec_anchor_bits(OverlayPosition::Center) == 0,
        !(at_top(p) && at_bottom(p)),
        !(at_left(p) && at_right(p)),
        p != q ==> spec_anchor_bits(p) != spec_anchor_bits(q),
{
}

#[verifier::external_type_specification]
#[verifier::external_body]
pub struct ExSystemTime(std::time::SystemTime);

/// Reads the wall clock (`std::time::SystemTime::now`); nothing is known of
/// the reading.
#[verifier::external_body]
fn wall_clock_now() -> std::time::SystemTime {
    std::time::SystemTime::now()
}

/// Nanoseconds from the Unix epoch to `t` (`SystemTime::duration_since` with
/// `UNIX_EPOCH`), or `None` when `t` lies before the epoch. The value depends
/// on a wall-clock reading; nothing more is stated of it.
#[verifier::external_body]
fn unix_nanos(t: &std::time::SystemTime) -> Option<u128> {
    match t.duration_since(std::time::UNIX_EPOCH) {
        Ok(d) => Some(d.as_nanos()),
        Err(_) => None,
    }
}

/// The identifier derived from a wall-clock reading: its nanoseconds since
/// the Unix epoch, truncated to 64 bits; zero for a time before the epoch.
pub open spec fn spec_id_from_unix_nanos(nanos: Option<u128>) -> u64 {
    match nanos {
        Some(n) => n as u64,
        None => 0,
    }
}

/// The identifier derived from a wall-clock reading in nanoseconds since the
/// Unix epoch (`None` for a time before the epoch).
pub fn id_from_unix_nanos(nanos: Option<u128>) -> (r: u64)
    ensures
        r == spec_id_from_unix_nanos(nanos),
{
    match nanos {
        Some(n) => #[verifier::truncate] (n as u64),
        None => 0,
    }
}

/// A pseudo-unique identifier taken from the wall clock, used to name
/// temporary shared-memory files.
pub fn rand_id() -> (r: u64)
    ensures
        exists|nanos: Option<u128>| r == spec_id_from_unix_nanos(nanos),
{
    let now = wall_clock_now();
    let nanos = unix_nanos(&now);
    id_from_unix_nanos(nanos)
}

/// Bytes per pixel of the shared-memory buffer (ARGB8888).
pub const BYTES_PER_PIXEL: i32 = 4;

/// Row stride and byte size of a shared-memory buffer of `width` by
/// `height` pixels.
pub fn buffer_layout(width: i32, height: i32) -> (r: (i32, usize))
    requires
        i32::MIN <= width * BYTES_PER_PIXEL <= i32::MAX,
        i32::MIN <= width * BYTES_PER_PIXEL * height <= i32::MAX,
    ensures
        r.0 == width * BYTES_PER_PIXEL,
        r.1 == (width * BYTES_PER_PIXEL * height) as usize,
{
    let stride = width * BYTES_PER_PIXEL;
    let size: usize = #[verifier::truncate] ((stride * height) as usize);
    (stride, size)
}

} // verus!
