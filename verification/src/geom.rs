//! Axis-aligned rectangles and the intersection test used for collisions.

use vstd::prelude::*;

verus! {

/// Mathematical model of an axis-aligned rectangle: the top-left corner
/// and the extents, over unbounded integers.
pub struct RectModel {
    pub x: int,
    pub y: int,
    pub w: int,
    pub h: int,
}

/// Two rectangles overlap when they share area on both axes. Rectangles
/// that merely touch along an edge or a corner do not overlap.
pub open spec fn overlaps(a: RectModel, b: RectModel) -> bool {
    &&& a.x < b.x + b.w
    &&& b.x < a.x + a.w
    &&& a.y < b.y + b.h
    &&& b.y < a.y + a.h
}

/// An axis-aligned rectangle, derived on demand from a paddle's or the
/// ball's position and size and used only for intersection tests.
#[derive(Clone, Copy, Debug, PartialEq, Eq, Structural)]
pub struct Rect {
    pub x: i64,
    pub y: i64,
    pub w: i64,
    pub h: i64,
}

impl View for Rect {
    type V = RectModel;

    open spec fn view(&self) -> RectModel {
        RectModel { x: self.x as int, y: self.y as int, w: self.w as int, h: self.h as int }
    }
}

/// Every field small enough that the edge sums in the intersection test
/// stay within `i64`.
pub open spec fn rect_fits(r: RectModel) -> bool {
    &&& -0x2000_0000_0000_0000 <= r.x <= 0x2000_0000_0000_0000
    &&& -0x2000_0000_0000_0000 <= r.y <= 0x2000_0000_0000_0000
    &&& 0 <= r.w <= 0x2000_0000_0000_0000
    &&& 0 <= r.h <= 0x2000_0000_0000_0000
}

impl Rect {
    pub fn new(x: i64, y: i64, w: i64, h: i64) -> (r: Rect)
        ensures
            r@ == (RectModel { x: x as int, y: y as int, w: w as int, h: h as int }),
    {
        Rect { x, y, w, h }
    }

    /// Strict axis-aligned intersection test; touching edges do not count.
    pub fn intersects(&self, other: &Rect) -> (r: bool)
        requires
            rect_fits(self@),
            rect_fits(other@),
        ensures
            r == overlaps(self@, other@),
    {
        self.x < other.x + other.w && other.x < self.x + self.w && self.y < other.y + other.h
            && other.y < self.y + self.h
    }
}

} // verus!
