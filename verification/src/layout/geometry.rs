//! Geometry that the layout carries around without computing with it.

use vstd::prelude::*;

verus! {

/// Whether the bit pattern of a double is that of no number.
pub open spec fn is_nan(bits: u64) -> bool {
    bits % 0x8000_0000_0000_0000 > 0x7FF0_0000_0000_0000
}

/// Whether the bit pattern of a double is that of zero, with either sign.
pub open spec fn is_zero(bits: u64) -> bool {
    bits % 0x8000_0000_0000_0000 == 0
}

/// Whether two bit patterns are those of equal doubles.
pub open spec fn numbers_equal(a: u64, b: u64) -> bool {
    !is_nan(a) && !is_nan(b) && (a == b || is_zero(a) && is_zero(b))
}

pub fn same_number(a: u64, b: u64) -> (r: bool)
    ensures
        r == numbers_equal(a, b),
{
    let x: u64 = a % 0x8000_0000_0000_0000;
    let y: u64 = b % 0x8000_0000_0000_0000;
    x <= 0x7FF0_0000_0000_0000 && y <= 0x7FF0_0000_0000_0000 && (a == b || (x == 0 && y == 0))
}

/// A size in logical pixels, each coordinate the bit pattern of a double.
#[derive(Debug, Clone, Copy, PartialEq, Eq, Structural)]
pub struct SizeBits {
    pub w: u64,
    pub h: u64,
}

pub open spec fn sizes_equal(a: SizeBits, b: SizeBits) -> bool {
    numbers_equal(a.w, b.w) && numbers_equal(a.h, b.h)
}

pub fn same_size(a: SizeBits, b: SizeBits) -> (r: bool)
    ensures
        r == sizes_equal(a, b),
{
    same_number(a.w, b.w) && same_number(a.h, b.h)
}

/// A rectangle in logical pixels, each coordinate the bit pattern of a double.
#[derive(Debug, Clone, Copy, PartialEq, Eq, Structural)]
pub struct RectBits {
    pub x: u64,
    pub y: u64,
    pub size: SizeBits,
}

pub open spec fn rects_equal(a: RectBits, b: RectBits) -> bool {
    numbers_equal(a.x, b.x) && numbers_equal(a.y, b.y) && sizes_equal(a.size, b.size)
}

pub fn same_rect(a: RectBits, b: RectBits) -> (r: bool)
    ensures
        r == rects_equal(a, b),
{
    same_number(a.x, b.x) && same_number(a.y, b.y) && same_size(a.size, b.size)
}

/// What a column container is told about the output it is shown on.
#[derive(Debug, Clone, Copy, PartialEq, Eq, Structural)]
pub struct ViewGeometry {
    pub view_size: SizeBits,
    pub working_area: RectBits,
    pub scale: u64,
}

/// Edges of a window that an interactive resize drags.
#[derive(Debug, Clone, Copy, PartialEq, Eq, Structural)]
pub struct ResizeEdge {
    pub top: bool,
    pub bottom: bool,
    pub left: bool,
    pub right: bool,
}

/// Numbers are equal to themselves, what is no number is equal to nothing, and equality is
/// mutual and is passed on. Both zeros are equal.
pub proof fn equality_is_that_of_numbers(a: u64, b: u64, c: u64)
    ensures
        numbers_equal(a, a) <==> !is_nan(a),
        numbers_equal(a, b) ==> numbers_equal(b, a),
        numbers_equal(a, b) && numbers_equal(b, c) ==> numbers_equal(a, c),
        numbers_equal(0, 0x8000_0000_0000_0000),
        numbers_equal(a, b) && a != b ==> is_zero(a) && is_zero(b),
        is_nan(a) ==> !numbers_equal(a, b) && !numbers_equal(b, a),
{
}

/// Sizes and rectangles are equal exactly if each of their numbers is.
pub proof fn equality_is_that_of_all_numbers(a: RectBits, b: RectBits)
    ensures
        rects_equal(a, b) <==> {
            &&& numbers_equal(a.x, b.x)
            &&& numbers_equal(a.y, b.y)
            &&& numbers_equal(a.size.w, b.size.w)
            &&& numbers_equal(a.size.h, b.size.h)
        },
        rects_equal(a, b) ==> sizes_equal(a.size, b.size),
        rects_equal(a, b) ==> rects_equal(b, a),
{
}

} // verus!
