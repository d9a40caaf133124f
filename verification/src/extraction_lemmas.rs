//! What holds of every reading of an image.

use vstd::prelude::*;
use crate::extraction::{blank, marker, ExtractionError};
use crate::raster::{lemma_index_is_one_to_one, Raster, Rgba};
use crate::rect::Rect;
use crate::solid::Solid;

verus! {

/// Whether a reading meets pixel `(u, v)` before pixel `(x, y)`.
pub open spec fn read_before(u: int, v: int, x: int, y: int) -> bool {
    v < y || (v == y && u < x)
}

impl Raster {
    /// Whether no pixel that a reading meets from `(x, y)` on and before
    /// `(x_end, y_end)` has the marker colour.
    pub open spec fn no_marker_between(self, x: int, y: int, x_end: int, y_end: int) -> bool {
        forall|u: int, v: int|
            self.contains(u, v) && !read_before(u, v, x, y) && read_before(u, v, x_end, y_end)
                ==> !#[trigger] self.has_marker(u, v)
    }

    /// Whether no pixel that a reading meets from `(x, y)` on has the marker
    /// colour.
    pub open spec fn no_marker_from(self, x: int, y: int) -> bool {
        forall|u: int, v: int|
            self.contains(u, v) && !read_before(u, v, x, y) ==> !#[trigger] self.has_marker(u, v)
    }
}

/// Painting one pixel changes that pixel and no other.
pub proof fn lemma_with_pixel(grid: Raster, x: int, y: int, p: Rgba, u: int, v: int)
    requires
        grid.wf(),
        grid.contains(x, y),
        grid.contains(u, v),
    ensures
        grid.with_pixel(x, y, p).wf(),
        grid.with_pixel(x, y, p).at(u, v) == if u == x && v == y {
            p
        } else {
            grid.at(u, v)
        },
{
    lemma_index_is_one_to_one(grid.width, grid.height, x, y, u, v);
    lemma_index_is_one_to_one(grid.width, grid.height, u, v, x, y);
}

/// The search along a row stops at the first marker: there is none before the
/// column it gives, and there is one at that column unless the row ended.
pub proof fn lemma_marker_from(grid: Raster, x: int, y: int)
    requires
        x <= grid.width,
    ensures
        x <= grid.marker_from(x, y) <= grid.width,
        forall|u: int| x <= u < grid.marker_from(x, y) ==> !#[trigger] grid.has_marker(u, y),
        grid.marker_from(x, y) < grid.width ==> grid.has_marker(grid.marker_from(x, y), y),
    decreases grid.width - x,
{
    if x < grid.width && !grid.has_marker(x, y) {
        lemma_marker_from(grid, x + 1, y);
    }
}

/// The search down a column stops at the first marker.
pub proof fn lemma_marker_down_from(grid: Raster, x: int, y: int)
    requires
        y <= grid.height,
    ensures
        y <= grid.marker_down_from(x, y) <= grid.height,
        forall|v: int| y <= v < grid.marker_down_from(x, y) ==> !#[trigger] grid.has_marker(x, v),
        grid.marker_down_from(x, y) < grid.height ==> grid.has_marker(
            x,
            grid.marker_down_from(x, y),
        ),
    decreases grid.height - y,
{
    if y < grid.height && !grid.has_marker(x, y) {
        lemma_marker_down_from(grid, x, y + 1);
    }
}

/// In a grid that is not wider or higher than rectangles can say, the
/// rectangle that a pixel opens starts at that pixel, ends inside the grid,
/// and has markers at its top-right and bottom-left corners, the first that
/// follow the pixel in its row and in its column.
pub proof fn lemma_rect_at(grid: Raster, x: int, y: int)
    requires
        grid.width <= i32::MAX,
        grid.height <= i32::MAX,
        grid.contains(x, y),
        grid.rect_at(x, y) is Ok,
    ensures
        ({
            let rect = grid.rect_at(x, y)->Ok_0;
            &&& rect.wf()
            &&& rect.left() == x
            &&& rect.top() == y
            &&& x + 2 <= rect.right() <= grid.width
            &&& y + 2 <= rect.bottom() <= grid.height
            &&& grid.has_marker(rect.right() - 1, y)
            &&& grid.has_marker(x, rect.bottom() - 1)
            &&& forall|u: int| x < u < rect.right() - 1 ==> !#[trigger] grid.has_marker(u, y)
            &&& forall|v: int| y < v < rect.bottom() - 1 ==> !#[trigger] grid.has_marker(x, v)
        }),
{
    lemma_marker_from(grid, x + 1, y);
    lemma_marker_down_from(grid, x, y + 1);
}

/// A reading passes over pixels without the marker colour: from `(x, y)` it
/// finds what it finds from `(x_end, y_end)`, if there is no marker between.
pub proof fn lemma_scan_skips(grid: Raster, x: int, y: int, x_end: int, y_end: int)
    requires
        0 <= x <= grid.width,
        0 <= y,
        0 <= x_end <= grid.width,
        y_end < grid.height || (y_end == grid.height && x_end == 0),
        !read_before(x_end, y_end, x, y),
        grid.no_marker_between(x, y, x_end, y_end),
    ensures
        grid.scan_from(x, y) == grid.scan_from(x_end, y_end),
    decreases grid.height - y, grid.width - x,
{
    if x == x_end && y == y_end {
    } else if y >= grid.height {
    } else if x >= grid.width {
        lemma_scan_skips(grid, 0, y + 1, x_end, y_end);
    } else {
        lemma_scan_skips(grid, x + 1, y, x_end, y_end);
    }
}

/// A reading finds nothing where no pixel has the marker colour.
pub proof fn lemma_scan_of_blank(grid: Raster, x: int, y: int)
    requires
        0 <= x <= grid.width,
        0 <= y,
        grid.no_marker_from(x, y),
    ensures
        grid.scan_from(x, y) == Ok::<Seq<Solid>, ExtractionError>(Seq::empty()),
    decreases grid.height - y, grid.width - x,
{
    if y >= grid.height {
    } else if x >= grid.width {
        lemma_scan_of_blank(grid, 0, y + 1);
    } else {
        lemma_scan_of_blank(grid, x + 1, y);
    }
}

/// A reading fails at the first marker that it meets if no marker follows in
/// that marker's row: the rectangle is not passed over.
pub proof fn lemma_unclosed_row_fails(grid: Raster, x: int, y: int)
    requires
        grid.wf(),
        grid.width <= i32::MAX,
        grid.height <= i32::MAX,
        grid.contains(x, y),
        grid.has_marker(x, y),
        grid.no_marker_between(0, 0, x, y),
        forall|u: int| x < u < grid.width ==> !#[trigger] grid.has_marker(u, y),
    ensures
        grid.scan() == Err::<Seq<Solid>, ExtractionError>(
            ExtractionError::MissingRightBound { left: x as u32, top: y as u32 },
        ),
{
    lemma_scan_skips(grid, 0, 0, x, y);
    lemma_marker_from(grid, x + 1, y);
}

/// A reading fails at the first marker that it meets if a marker follows in
/// its row and none in its column.
pub proof fn lemma_unclosed_column_fails(grid: Raster, x: int, y: int, right: int)
    requires
        grid.wf(),
        grid.width <= i32::MAX,
        grid.height <= i32::MAX,
        grid.contains(x, y),
        grid.has_marker(x, y),
        grid.no_marker_between(0, 0, x, y),
        x < right < grid.width,
        grid.has_marker(right, y),
        forall|u: int| x < u < right ==> !#[trigger] grid.has_marker(u, y),
        forall|v: int| y < v < grid.height ==> !#[trigger] grid.has_marker(x, v),
    ensures
        grid.scan() == Err::<Seq<Solid>, ExtractionError>(
            ExtractionError::MissingBottomBound {
                left: x as u32,
                right: right as u32,
                top: y as u32,
            },
        ),
{
    lemma_scan_skips(grid, 0, 0, x, y);
    lemma_marker_from(grid, x + 1, y);
    lemma_marker_down_from(grid, x, y + 1);
}

/// A grid whose only markers are the four corners of one rectangle reads as
/// that one rectangle, corners included.
pub proof fn lemma_single_rectangle(grid: Raster, left: int, top: int, right: int, bottom: int)
    requires
        grid.wf(),
        grid.width <= i32::MAX,
        grid.height <= i32::MAX,
        0 <= left < right < grid.width,
        0 <= top < bottom < grid.height,
        forall|u: int, v: int|
            grid.contains(u, v) ==> (#[trigger] grid.has_marker(u, v) <==> (u == left || u
                == right) && (v == top || v == bottom)),
    ensures
        grid.scan() == Ok::<Seq<Solid>, ExtractionError>(
            seq![
                Solid {
                    collider: Rect {
                        x: left as i32,
                        y: top as i32,
                        w: (right - left + 1) as i32,
                        h: (bottom - top + 1) as i32,
                    },
                },
            ],
        ),
{
    lemma_scan_skips(grid, 0, 0, left, top);
    lemma_marker_from(grid, left + 1, top);
    lemma_marker_down_from(grid, left, top + 1);
    assert(grid.has_marker(right, top));
    assert(grid.has_marker(left, bottom));
    let one = grid.with_pixel(left, top, blank());
    let two = one.with_pixel(right, top, blank());
    let three = two.with_pixel(left, bottom, blank());
    let cleared = three.with_pixel(right, bottom, blank());
    assert forall|u: int, v: int| cleared.contains(u, v) implies !#[trigger] cleared.has_marker(
        u,
        v,
    ) by {
        lemma_with_pixel(grid, left, top, blank(), u, v);
        lemma_with_pixel(one, right, top, blank(), u, v);
        lemma_with_pixel(two, left, bottom, blank(), u, v);
        lemma_with_pixel(three, right, bottom, blank(), u, v);
        assert(grid.has_marker(u, v) <==> (u == left || u == right) && (v == top || v == bottom));
    }
    lemma_scan_of_blank(cleared, left + 1, top);
    let found = seq![
        Solid {
            collider: Rect {
                x: left as i32,
                y: top as i32,
                w: (right - left + 1) as i32,
                h: (bottom - top + 1) as i32,
            },
        },
    ];
}

} // verus!
