//! Reading obstacles out of an image in which marker pixels frame them.
//!
//! A rectangle is drawn by painting its corners in the marker colour. The
//! image is read row by row from the top, each row from the left. A marker
//! pixel that is met opens a rectangle: the next marker to its right in the
//! same row gives the right edge, the next marker below it in the same column
//! the bottom edge. The four corners are then painted blank, so that none of
//! them opens a rectangle later.

use vstd::prelude::*;
use macroquad::texture::Image;
use crate::raster::{
    get_pixel, height, is_consistent, is_grid, raster_of, set_pixel, width, Raster, Rgba,
};
use crate::rect::Rect;
use crate::solid::Solid;

verus! {

/// Why an image could not be read: a marker pixel opens a rectangle that
/// nothing closes.
#[derive(Clone, Copy, Debug, PartialEq, Eq, Structural)]
pub enum ExtractionError {
    /// No marker follows the one at `(left, top)` in its row.
    MissingRightBound { left: u32, top: u32 },
    /// No marker follows the one at `(left, top)` in its column. `right` is
    /// the right edge that was found for it.
    MissingBottomBound { left: u32, right: u32, top: u32 },
}

/// The colour that marks a corner: opaque red.
pub open spec fn marker() -> Rgba {
    Rgba { r: 255, g: 0, b: 0, a: 255 }
}

/// The colour that a corner is painted once it has been read: transparent
/// black.
pub open spec fn blank() -> Rgba {
    Rgba { r: 0, g: 0, b: 0, a: 0 }
}

/// `found` followed by what the rest of a reading gave, or the error if it
/// gave one.
pub open spec fn after(found: Seq<Solid>, rest: Result<Seq<Solid>, ExtractionError>) -> Result<
    Seq<Solid>,
    ExtractionError,
> {
    match rest {
        Ok(more) => Ok(found + more),
        Err(e) => Err(e),
    }
}

impl Raster {
    /// Whether pixel `(x, y)` has the marker colour.
    pub open spec fn has_marker(self, x: int, y: int) -> bool {
        self.at(x, y) == marker()
    }

    /// The column of the first marker in row `y` at or right of column `x`,
    /// or the width if there is none.
    pub open spec fn marker_from(self, x: int, y: int) -> int
        decreases self.width - x,
    {
        if x >= self.width {
            self.width as int
        } else if self.has_marker(x, y) {
            x
        } else {
            self.marker_from(x + 1, y)
        }
    }

    /// The row of the first marker in column `x` at or below row `y`, or the
    /// height if there is none.
    pub open spec fn marker_down_from(self, x: int, y: int) -> int
        decreases self.height - y,
    {
        if y >= self.height {
            self.height as int
        } else if self.has_marker(x, y) {
            y
        } else {
            self.marker_down_from(x, y + 1)
        }
    }

    /// The rectangle that the pixel `(x, y)` opens: it reaches to the next
    /// marker to the right and to the next marker below, both included.
    pub open spec fn rect_at(self, x: int, y: int) -> Result<Rect, ExtractionError> {
        let right = self.marker_from(x + 1, y);
        let bottom = self.marker_down_from(x, y + 1);
        if right >= self.width {
            Err(ExtractionError::MissingRightBound { left: x as u32, top: y as u32 })
        } else if bottom >= self.height {
            Err(
                ExtractionError::MissingBottomBound {
                    left: x as u32,
                    right: right as u32,
                    top: y as u32,
                },
            )
        } else {
            Ok(
                Rect {
                    x: x as i32,
                    y: y as i32,
                    w: (right + 1 - x) as i32,
                    h: (bottom + 1 - y) as i32,
                },
            )
        }
    }

    /// The grid with the four corners of the rectangle that `(x, y)` opens
    /// painted blank.
    pub open spec fn without_corners(self, x: int, y: int) -> Raster {
        let right = self.marker_from(x + 1, y);
        let bottom = self.marker_down_from(x, y + 1);
        self.with_pixel(x, y, blank()).with_pixel(right, y, blank()).with_pixel(
            x,
            bottom,
            blank(),
        ).with_pixel(right, bottom, blank())
    }

    /// The obstacles that a reading finds from pixel `(x, y)` on, in the
    /// order in which it finds them, or the first error that it meets.
    pub open spec fn scan_from(self, x: int, y: int) -> Result<Seq<Solid>, ExtractionError>
        decreases self.height - y, self.width - x,
    {
        if y >= self.height {
            Ok(Seq::empty())
        } else if x >= self.width {
            self.scan_from(0, y + 1)
        } else if !self.has_marker(x, y) {
            self.scan_from(x + 1, y)
        } else {
            match self.rect_at(x, y) {
                Err(e) => Err(e),
                Ok(rect) => after(
                    seq![Solid { collider: rect }],
                    self.without_corners(x, y).scan_from(x + 1, y),
                ),
            }
        }
    }

    /// The obstacles that a reading of the whole grid finds.
    pub open spec fn scan(self) -> Result<Seq<Solid>, ExtractionError> {
        self.scan_from(0, 0)
    }
}

/// Tests whether a colour is the marker colour.
pub fn is_marker(p: Rgba) -> (yes: bool)
    ensures
        yes == (p == marker()),
{
    p.r == 255 && p.g == 0 && p.b == 0 && p.a == 255
}

/// The column of the first marker in row `y` at or right of column `from`.
fn find_marker_in_row(image: &Image, from: u32, y: u32) -> (found: u32)
    requires
        is_grid(*image),
        y < raster_of(*image).height,
        from <= raster_of(*image).width,
    ensures
        found == raster_of(*image).marker_from(from as int, y as int),
        from <= found <= raster_of(*image).width,
{
    let w = width(image);
    let mut x: u32 = from;
    while x < w
        invariant
            is_grid(*image),
            w == raster_of(*image).width,
            y < raster_of(*image).height,
            from <= x <= w,
            raster_of(*image).marker_from(from as int, y as int) == raster_of(*image).marker_from(
                x as int,
                y as int,
            ),
        decreases w - x,
    {
        if is_marker(get_pixel(image, x, y)) {
            return x;
        }
        x = x + 1;
    }
    x
}

/// The row of the first marker in column `x` at or below row `from`.
fn find_marker_in_column(image: &Image, x: u32, from: u32) -> (found: u32)
    requires
        is_grid(*image),
        x < raster_of(*image).width,
        from <= raster_of(*image).height,
    ensures
        found == raster_of(*image).marker_down_from(x as int, from as int),
        from <= found <= raster_of(*image).height,
{
    let h = height(image);
    let mut y: u32 = from;
    while y < h
        invariant
            is_grid(*image),
            h == raster_of(*image).height,
            x < raster_of(*image).width,
            from <= y <= h,
            raster_of(*image).marker_down_from(x as int, from as int) == raster_of(
                *image,
            ).marker_down_from(x as int, y as int),
        decreases h - y,
    {
        if is_marker(get_pixel(image, x, y)) {
            return y;
        }
        y = y + 1;
    }
    y
}

/// Reads the rectangle that pixel `(x, y)` opens and paints its four corners
/// blank. Where nothing closes the rectangle, the image is left as it was.
pub fn read_collision_rect(image: &mut Image, x: u32, y: u32) -> (r: Result<Rect, ExtractionError>)
    requires
        is_grid(*old(image)),
        raster_of(*old(image)).contains(x as int, y as int),
    ensures
        r == raster_of(*old(image)).rect_at(x as int, y as int),
        is_grid(*final(image)),
        r is Ok ==> raster_of(*final(image)) == raster_of(*old(image)).without_corners(
            x as int,
            y as int,
        ),
        r is Err ==> raster_of(*final(image)) == raster_of(*old(image)),
        r is Ok ==> r->Ok_0.wf(),
{
    let w = width(image);
    let h = height(image);
    let right_bound = find_marker_in_row(image, x + 1, y);
    if right_bound >= w {
        return Err(ExtractionError::MissingRightBound { left: x, top: y });
    }
    let bottom_bound = find_marker_in_column(image, x, y + 1);
    if bottom_bound >= h {
        return Err(ExtractionError::MissingBottomBound { left: x, right: right_bound, top: y });
    }
    let empty = Rgba { r: 0, g: 0, b: 0, a: 0 };
    set_pixel(image, x, y, empty);
    set_pixel(image, right_bound, y, empty);
    set_pixel(image, x, bottom_bound, empty);
    set_pixel(image, right_bound, bottom_bound, empty);
    Ok(
        Rect::new(
            x as i32,
            y as i32,
            (right_bound + 1 - x) as i32,
            (bottom_bound + 1 - y) as i32,
        ),
    )
}

/// Reads all obstacles out of an image, in the order in which a reading row
/// by row meets their top-left corners.
pub fn read_map_collisions(image: Image) -> (r: Result<Vec<Solid>, ExtractionError>)
    requires
        is_grid(image),
    ensures
        match raster_of(image).scan() {
            Ok(solids) => r is Ok && r->Ok_0@ == solids,
            Err(e) => r == Err::<Vec<Solid>, ExtractionError>(e),
        },
        r is Ok ==> forall|i: int| 0 <= i < r->Ok_0.len() ==> (#[trigger] r->Ok_0[i]).wf(),
{
    let mut work = image;
    let w = width(&work);
    let h = height(&work);
    let mut solids: Vec<Solid> = Vec::new();
    let mut y_pos: u32 = 0;
    while y_pos < h
        invariant
            is_grid(work),
            w == raster_of(work).width,
            h == raster_of(work).height,
            y_pos <= h,
            after(solids@, raster_of(work).scan_from(0, y_pos as int)) == raster_of(image).scan(),
            forall|i: int| 0 <= i < solids.len() ==> (#[trigger] solids[i]).wf(),
        decreases h - y_pos,
    {
        let mut x_pos: u32 = 0;
        while x_pos < w
            invariant
                is_grid(work),
                w == raster_of(work).width,
                h == raster_of(work).height,
                y_pos < h,
                x_pos <= w,
                after(solids@, raster_of(work).scan_from(x_pos as int, y_pos as int)) == raster_of(
                    image,
                ).scan(),
                forall|i: int| 0 <= i < solids.len() ==> (#[trigger] solids[i]).wf(),
            decreases w - x_pos,
        {
            if is_marker(get_pixel(&work, x_pos, y_pos)) {
                let ghost found = solids@;
                match read_collision_rect(&mut work, x_pos, y_pos) {
                    Err(e) => {
                        return Err(e);
                    },
                    Ok(rect) => {
                        solids.push(Solid::new(rect));
                        proof {
                            let rest = raster_of(work).scan_from(x_pos + 1, y_pos as int);
                            match rest {
                                Ok(more) => {
                                    assert(found + (seq![Solid { collider: rect }] + more)
                                        =~= solids@ + more);
                                },
                                Err(_) => {},
                            }
                        }
                    },
                }
            }
            x_pos = x_pos + 1;
        }
        y_pos = y_pos + 1;
    }
    Ok(solids)
}

/// Reads all obstacles out of an image as `read_map_collisions` does, after
/// making sure that the image's buffer matches its declared size; `None` if it
/// does not.
pub fn try_read_map_collisions(image: Image) -> (r: Option<Result<Vec<Solid>, ExtractionError>>)
    ensures
        r is Some == is_grid(image),
        r is Some ==> match raster_of(image).scan() {
            Ok(solids) => r->Some_0 is Ok && r->Some_0->Ok_0@ == solids,
            Err(e) => r->Some_0 == Err::<Vec<Solid>, ExtractionError>(e),
        },
        r is Some && r->Some_0 is Ok ==> forall|i: int|
            0 <= i < r->Some_0->Ok_0.len() ==> (#[trigger] r->Some_0->Ok_0[i]).wf(),
{
    if is_consistent(&image) {
        Some(read_map_collisions(image))
    } else {
        None
    }
}

} // verus!
