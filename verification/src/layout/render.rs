//! How the columns are drawn next to the panels.
//!
//! Columns slide behind a panel when the view scrolls. What comes close to the
//! panel's edge is faded out in a thin band, and the rest is drawn as it is.

use vstd::prelude::*;
use crate::layout::geometry::{is_nan, is_zero};

verus! {

/// The bit pattern of infinity as a double; the patterns behind it, with the
/// sign bit clear, are no numbers.
pub const INFINITY: u64 = 0x7FF0_0000_0000_0000;

/// Whether a bit pattern is that of a double above zero.
pub open spec fn is_positive(bits: u64) -> bool {
    0 < bits <= INFINITY
}

/// Whether a bit pattern is that of a double above zero.
pub fn positive(bits: u64) -> (r: bool)
    ensures
        r == is_positive(bits),
{
    0 < bits && bits <= INFINITY
}

/// A rectangle in physical pixels.
#[derive(Debug, Clone, Copy, PartialEq, Eq, Structural)]
pub struct PixelRect {
    pub x: i32,
    pub y: i32,
    pub w: i32,
    pub h: i32,
}

/// A sum kept in the range of pixel positions.
pub open spec fn clamped_sum(a: i32, b: i32) -> int {
    if a + b > i32::MAX {
        i32::MAX as int
    } else if a + b < i32::MIN {
        i32::MIN as int
    } else {
        a + b
    }
}

fn end_of(start: i32, length: i32) -> (r: i32)
    ensures
        r == clamped_sum(start, length),
{
    let sum: i64 = start as i64 + length as i64;
    if sum > i32::MAX as i64 {
        i32::MAX
    } else if sum < i32::MIN as i64 {
        i32::MIN
    } else {
        sum as i32
    }
}

/// Whether two spans share a piece of some length.
pub open spec fn spans_share(a: i32, a_len: i32, b: i32, b_len: i32) -> bool {
    let start = if a > b {
        a as int
    } else {
        b as int
    };
    start < clamped_sum(a, a_len) && start < clamped_sum(b, b_len)
}

/// Whether two rectangles share an area.
pub open spec fn rects_share(a: PixelRect, b: PixelRect) -> bool {
    spans_share(a.x, a.w, b.x, b.w) && spans_share(a.y, a.h, b.y, b.h)
}

fn share_span(a: i32, a_len: i32, b: i32, b_len: i32) -> (r: bool)
    ensures
        r == spans_share(a, a_len, b, b_len),
{
    let start: i32 = if a > b { a } else { b };
    start < end_of(a, a_len) && start < end_of(b, b_len)
}

/// Whether two rectangles share an area. One without a width or a height shares
/// none.
pub fn share_area(a: PixelRect, b: PixelRect) -> (r: bool)
    ensures
        r == rects_share(a, b),
{
    share_span(a.x, a.w, b.x, b.w) && share_span(a.y, a.h, b.y, b.h)
}

/// Whether one of the rectangles reaches into a band.
pub open spec fn reaches(elements: Seq<PixelRect>, band: PixelRect) -> bool {
    exists|i: int| 0 <= i < elements.len() && rects_share(#[trigger] elements[i], band)
}

fn any_reaches(elements: &Vec<PixelRect>, band: PixelRect) -> (r: bool)
    ensures
        r == reaches(elements@, band),
{
    let mut i: usize = 0;
    while i < elements.len()
        invariant
            i <= elements@.len(),
            forall|j: int| 0 <= j < i ==> !rects_share(#[trigger] elements@[j], band),
        decreases elements@.len() - i,
    {
        if share_area(elements[i], band) {
            assert(rects_share(elements@[i as int], band));
            return true;
        }
        i += 1;
    }
    false
}

/// How to begin to draw the columns.
#[derive(Debug, Clone, Copy, PartialEq, Eq, Structural)]
pub enum CarouselRender {
    /// Draw them as they are.
    Direct { focus_ring: bool },
    /// Collect what is to be drawn, and find out which edges are faded.
    Collect { focus_ring: bool },
}

/// The edges at which the columns are faded. What is drawn in full ends at the
/// bands of those edges, and at the working area on the other side.
#[derive(Debug, Clone, Copy, PartialEq, Eq, Structural)]
pub struct FadeEdges {
    pub left: bool,
    pub right: bool,
}

/// The edges at which the columns are faded.
pub open spec fn faded(
    elements: Seq<PixelRect>,
    left_panel: bool,
    right_panel: bool,
    left_band: PixelRect,
    right_band: PixelRect,
) -> Option<FadeEdges> {
    let left = left_panel && reaches(elements, left_band);
    let right = right_panel && reaches(elements, right_band);
    if left || right {
        Some(FadeEdges { left, right })
    } else {
        None
    }
}

/// The edges at which to fade the columns: those next to a panel where something
/// reaches into the band. `None` where nothing does and all is drawn in full.
pub fn fade_edges(
    elements: &Vec<PixelRect>,
    left_panel: bool,
    right_panel: bool,
    left_band: PixelRect,
    right_band: PixelRect,
) -> (r: Option<FadeEdges>)
    ensures
        r == faded(elements@, left_panel, right_panel, left_band, right_band),
{
    let left = left_panel && any_reaches(elements, left_band);
    let right = right_panel && any_reaches(elements, right_band);
    if left || right {
        Some(FadeEdges { left, right })
    } else {
        None
    }
}

/// Whether a pixel is in a rectangle.
pub open spec fn has_pixel(r: PixelRect, x: int, y: int) -> bool {
    r.x <= x < r.x + r.w && r.y <= y < r.y + r.h
}

/// Rectangles share an area exactly if there is a pixel in both of them.
pub proof fn sharing_is_having_a_pixel_in_common(a: PixelRect, b: PixelRect)
    requires
        a.x + a.w <= i32::MAX,
        a.y + a.h <= i32::MAX,
        b.x + b.w <= i32::MAX,
        b.y + b.h <= i32::MAX,
    ensures
        rects_share(a, b) <==> exists|x: int, y: int| #[trigger]
            has_pixel(a, x, y) && has_pixel(b, x, y),
{
    let x: int = if a.x > b.x {
        a.x as int
    } else {
        b.x as int
    };
    let y: int = if a.y > b.y {
        a.y as int
    } else {
        b.y as int
    };
    if rects_share(a, b) {
        assert(has_pixel(a, x, y) && has_pixel(b, x, y));
    }
}

/// An edge is faded if and only if there is a panel and something reaches into its band, and
/// the two sides have nothing to do with each other.
pub proof fn edges_are_faded_next_to_panels(
    elements: Seq<PixelRect>,
    left_panel: bool,
    right_panel: bool,
    left_band: PixelRect,
    right_band: PixelRect,
)
    ensures
        ({
            let r = faded(elements, left_panel, right_panel, left_band, right_band);
            &&& r is Some && r->0.left <==> left_panel && reaches(elements, left_band)
            &&& r is Some && r->0.right <==> right_panel && reaches(elements, right_band)
            &&& r is Some ==> r->0.left || r->0.right
        }),
{
}

/// The sides are treated alike: what holds of one holds of the other one when they change
/// places.
pub proof fn sides_are_treated_alike(
    elements: Seq<PixelRect>,
    left_panel: bool,
    right_panel: bool,
    left_band: PixelRect,
    right_band: PixelRect,
)
    ensures
        ({
            let r = faded(elements, left_panel, right_panel, left_band, right_band);
            let m = faded(elements, right_panel, left_panel, right_band, left_band);
            &&& r is Some <==> m is Some
            &&& r is Some ==> r->0.left == m->0.right && r->0.right == m->0.left
        }),
{
}

/// A number is above zero exactly if its sign is clear, it isn't zero and it is a number.
pub proof fn positive_numbers_have_no_sign(bits: u64)
    ensures
        is_positive(bits) <==> bits < 0x8000_0000_0000_0000 && !is_zero(bits) && !is_nan(bits),
{
}

} // verus!
