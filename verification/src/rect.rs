//! Axis-aligned rectangles on the integer grid.

use vstd::prelude::*;

verus! {

/// A point of the grid, in whole units.
#[derive(Clone, Copy, Debug, PartialEq, Eq, Structural)]
pub struct Point {
    pub x: i32,
    pub y: i32,
}

/// An axis-aligned rectangle: its top-left corner and its size, in whole units.
/// It covers `[x, x + w)` horizontally and `[y, y + h)` vertically; `y` grows
/// downwards.
#[derive(Clone, Copy, Debug, PartialEq, Eq, Structural)]
pub struct Rect {
    pub x: i32,
    pub y: i32,
    pub w: i32,
    pub h: i32,
}

impl Rect {
    /// A rectangle covers at least one cell.
    pub open spec fn wf(self) -> bool {
        self.w > 0 && self.h > 0
    }

    /// The left edge.
    pub open spec fn left(self) -> int {
        self.x as int
    }

    /// The right edge: the first column that the rectangle does not cover.
    pub open spec fn right(self) -> int {
        self.x + self.w
    }

    /// The top edge.
    pub open spec fn top(self) -> int {
        self.y as int
    }

    /// The bottom edge: the first row that the rectangle does not cover.
    pub open spec fn bottom(self) -> int {
        self.y + self.h
    }

    /// Whether this rectangle, pushed by `(dx, dy)`, would share area with
    /// `other`. Rectangles whose edges only touch share none.
    pub open spec fn overlaps_at(self, dx: int, dy: int, other: Rect) -> bool {
        &&& self.left() + dx < other.right()
        &&& self.right() + dx > other.left()
        &&& self.top() + dy < other.bottom()
        &&& self.bottom() + dy > other.top()
    }

    /// Whether the two rectangles share area.
    pub open spec fn overlaps(self, other: Rect) -> bool {
        self.overlaps_at(0, 0, other)
    }

    /// Whether the corner of this rectangle, pushed by `(dx, dy)`, is still a
    /// point of the grid.
    pub open spec fn fits_at(self, dx: int, dy: int) -> bool {
        &&& i32::MIN <= self.x + dx <= i32::MAX
        &&& i32::MIN <= self.y + dy <= i32::MAX
    }

    /// This rectangle pushed by `(dx, dy)`; meaningful where `fits_at` holds.
    pub open spec fn shifted(self, dx: int, dy: int) -> Rect {
        Rect { x: (self.x + dx) as i32, y: (self.y + dy) as i32, w: self.w, h: self.h }
    }

    /// The rectangle with its top-left corner at `(x, y)`, `w` wide and `h`
    /// high.
    pub fn new(x: i32, y: i32, w: i32, h: i32) -> (r: Rect)
        requires
            w > 0,
            h > 0,
        ensures
            r == (Rect { x, y, w, h }),
            r.wf(),
    {
        Rect { x, y, w, h }
    }

    /// Tests `overlaps_at` for a push of up to one unit along each axis.
    pub fn is_overlapping_at(&self, dx: i32, dy: i32, other: &Rect) -> (hit: bool)
        ensures
            hit == self.overlaps_at(dx as int, dy as int, *other),
    {
        let left: i64 = self.x as i64 + dx as i64;
        let top: i64 = self.y as i64 + dy as i64;
        let right: i64 = left + self.w as i64;
        let bottom: i64 = top + self.h as i64;
        let other_right: i64 = other.x as i64 + other.w as i64;
        let other_bottom: i64 = other.y as i64 + other.h as i64;
        left < other_right && right > other.x as i64 && top < other_bottom && bottom
            > other.y as i64
    }
}

} // verus!
