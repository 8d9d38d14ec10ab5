//! Text-metric placeholders and pointer-geometry helpers.
//!
//! Text shaping is out of scope: the metric functions stand in for an
//! injected text-measurement capability and return fixed extents, which
//! keeps every margin the space calculator derives deterministic.

use vstd::prelude::*;

verus! {

/// The fixed width, in pixels, the placeholder metrics give every
/// non-empty collection of label texts.
pub const PLACEHOLDER_TEXT_WIDTH: i64 = 30;

/// The fixed height, in pixels, the placeholder metrics give every
/// non-empty collection of label texts.
pub const PLACEHOLDER_TEXT_HEIGHT: i64 = 20;

/// A point on the drawing surface, in whole pixels.
#[derive(Debug, Clone, Copy, PartialEq, Eq, Structural)]
pub struct PixelPoint {
    pub x: i64,
    pub y: i64,
}

/// An axis-aligned rectangle on the drawing surface, in whole pixels.
#[derive(Debug, Clone, Copy, PartialEq, Eq, Structural)]
pub struct PixelRect {
    pub x: i64,
    pub y: i64,
    pub width: i64,
    pub height: i64,
}

/// Whether `r` contains `p`: closed on the low edges, open on the high
/// edges.
pub open spec fn spec_rect_contains(r: PixelRect, px: int, py: int) -> bool {
    &&& r.x <= px < r.x + r.width
    &&& r.y <= py < r.y + r.height
}

impl PixelRect {
    /// Whether the rectangle contains the point.
    pub fn contains(&self, p: PixelPoint) -> (r: bool)
        requires
            0 <= self.width,
            0 <= self.height,
            -0x4000_0000_0000_0000 <= self.x,
            self.x + self.width <= 0x4000_0000_0000_0000,
            -0x4000_0000_0000_0000 <= self.y,
            self.y + self.height <= 0x4000_0000_0000_0000,
        ensures
            r == spec_rect_contains(*self, p.x as int, p.y as int),
    {
        self.x <= p.x && p.x < self.x + self.width && self.y <= p.y && p.y < self.y + self.height
    }
}

/// Whether a pointer at `cursor` (when available) lies over
/// `bounds_to_search`, where the search rectangle is expressed relative to
/// the canvas rectangle `bounds`.
pub fn obsolete_cursor_is_over_inside_canvas(
    cursor: Option<PixelPoint>,
    bounds: &PixelRect,
    bounds_to_search: &PixelRect,
) -> (r: bool)
    requires
        0 <= bounds.width,
        0 <= bounds.height,
        -0x1000_0000_0000 <= bounds.x <= 0x1000_0000_0000,
        -0x1000_0000_0000 <= bounds.y <= 0x1000_0000_0000,
        -0x1000_0000_0000 <= bounds.width <= 0x1000_0000_0000,
        -0x1000_0000_0000 <= bounds.height <= 0x1000_0000_0000,
        0 <= bounds_to_search.width,
        0 <= bounds_to_search.height,
        -0x1000_0000_0000 <= bounds_to_search.x <= 0x1000_0000_0000,
        -0x1000_0000_0000 <= bounds_to_search.y <= 0x1000_0000_0000,
        -0x1000_0000_0000 <= bounds_to_search.width <= 0x1000_0000_0000,
        -0x1000_0000_0000 <= bounds_to_search.height <= 0x1000_0000_0000,
        cursor matches Some(p) ==> -0x1000_0000_0000 <= p.x <= 0x1000_0000_0000
            && -0x1000_0000_0000 <= p.y <= 0x1000_0000_0000,
    ensures
        r == (cursor matches Some(p) && spec_rect_contains(*bounds, p.x as int, p.y as int)
            && spec_rect_contains(
            *bounds_to_search,
            p.x - bounds.x,
            p.y - bounds.y,
        )),
{
    let p = match cursor {
        Some(p) => p,
        None => {
            return false;
        },
    };
    if !bounds.contains(p) {
        return false;
    }
    let relative = PixelPoint { x: p.x - bounds.x, y: p.y - bounds.y };
    bounds_to_search.contains(relative)
}

/// The placeholder width of one text, in pixels.
pub fn placeholder_get_text_width(text: &str) -> (r: i64)
    ensures
        r == PLACEHOLDER_TEXT_WIDTH,
{
    let _ = text;
    PLACEHOLDER_TEXT_WIDTH
}

/// The placeholder height of one text, in pixels.
pub fn placeholder_get_text_height(text: &str) -> (r: i64)
    ensures
        r == PLACEHOLDER_TEXT_HEIGHT,
{
    let _ = text;
    PLACEHOLDER_TEXT_HEIGHT
}

/// The widest placeholder width among `strings`, zero when there are none.
pub open spec fn spec_max_text_width(n: nat) -> int {
    if n == 0 {
        0
    } else {
        PLACEHOLDER_TEXT_WIDTH as int
    }
}

/// The tallest placeholder height among `strings`, zero when there are
/// none.
pub open spec fn spec_max_text_height(n: nat) -> int {
    if n == 0 {
        0
    } else {
        PLACEHOLDER_TEXT_HEIGHT as int
    }
}

/// The widest placeholder width among the given texts.
pub fn placeholder_get_max_text_width(strings: &Vec<String>) -> (r: i64)
    ensures
        r == spec_max_text_width(strings@.len()),
{
    let mut max_text_width: i64 = 0;
    let n = strings.len();
    for i in 0..n
        invariant
            n == strings@.len(),
            max_text_width == spec_max_text_width(i as nat),
    {
        let text_width = placeholder_get_text_width(strings[i].as_str());
        if text_width > max_text_width {
            max_text_width = text_width;
        }
    }
    max_text_width
}

/// The tallest placeholder height among the given texts.
pub fn placeholder_get_max_text_height(strings: &Vec<String>) -> (r: i64)
    ensures
        r == spec_max_text_height(strings@.len()),
{
    let mut max_text_height: i64 = 0;
    let n = strings.len();
    for i in 0..n
        invariant
            n == strings@.len(),
            max_text_height == spec_max_text_height(i as nat),
    {
        let text_height = placeholder_get_text_height(strings[i].as_str());
        if text_height > max_text_height {
            max_text_height = text_height;
        }
    }
    max_text_height
}

} // verus!
