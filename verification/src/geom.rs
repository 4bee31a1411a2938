//! Axis-aligned rectangles in deci units and the strict overlap test all
//! collision checks go through.

use vstd::prelude::*;

verus! {

/// Coordinate magnitude up to which the overlap test's sums stay in
/// machine range.
pub const RECT_LIMIT: i64 = 1_000_000_000_000_000_000;

/// Strict open-interval overlap of two boxes given by top-left corner,
/// width and height: touching edges do not collide.
pub open spec fn boxes_overlap(ax: int, ay: int, aw: int, ah: int, bx: int, by: int, bw: int, bh: int) -> bool {
    &&& ax < bx + bw
    &&& ax + aw > bx
    &&& ay < by + bh
    &&& ay + ah > by
}

/// An axis-aligned rectangle: top-left corner, width and height, in deci
/// units.
#[derive(Clone, Copy, Debug)]
pub struct DeciRect {
    pub x: i64,
    pub y: i64,
    pub w: i64,
    pub h: i64,
}

impl DeciRect {
    /// Whether the rectangle's coordinates and extents are small enough
    /// for the overlap test.
    pub open spec fn bounded(self) -> bool {
        &&& -RECT_LIMIT <= self.x <= RECT_LIMIT
        &&& -RECT_LIMIT <= self.y <= RECT_LIMIT
        &&& 0 <= self.w <= RECT_LIMIT
        &&& 0 <= self.h <= RECT_LIMIT
    }

    /// Strict open-interval overlap on both axes.
    pub open spec fn spec_overlaps(self, o: DeciRect) -> bool {
        boxes_overlap(
            self.x as int, self.y as int, self.w as int, self.h as int,
            o.x as int, o.y as int, o.w as int, o.h as int,
        )
    }
}

/// The overlap test on machine integers.
pub fn rects_overlap(a: &DeciRect, b: &DeciRect) -> (r: bool)
    requires
        a.bounded(),
        b.bounded(),
    ensures
        r == a.spec_overlaps(*b),
{
    a.x < b.x + b.w && a.x + a.w > b.x && a.y < b.y + b.h && a.y + a.h > b.y
}

} // verus!
