//! Pixel rectangles: the canvas a chart is laid out on and every region cut from it.

use core::ops::Range;
use vstd::prelude::*;

verus! {

/// The smallest pixel coordinate.
pub open spec fn coord_min() -> int {
    i32::MIN as int
}

/// The largest pixel coordinate.
pub open spec fn coord_max() -> int {
    i32::MAX as int
}

/// True when `v` is a pixel coordinate.
pub open spec fn is_coord(v: int) -> bool {
    coord_min() <= v <= coord_max()
}

/// An axis-aligned rectangle of pixels. The origin is the top left corner and
/// `y` grows downwards; the rectangle covers the columns `x0 .. x1` and the
/// rows `y0 .. y1`.
#[derive(Clone, Copy, Debug, PartialEq, Eq, Structural)]
pub struct Rect {
    pub x0: i32,
    pub y0: i32,
    pub x1: i32,
    pub y1: i32,
}

impl Rect {
    /// A rectangle is well formed when neither extent is negative.
    pub open spec fn wf(self) -> bool {
        self.x0 <= self.x1 && self.y0 <= self.y1
    }

    /// The number of pixel columns.
    pub open spec fn width(self) -> int {
        self.x1 - self.x0
    }

    /// The number of pixel rows.
    pub open spec fn height(self) -> int {
        self.y1 - self.y0
    }

    /// True when the rectangle holds no pixel.
    pub open spec fn is_empty(self) -> bool {
        self.width() <= 0 || self.height() <= 0
    }

    /// True when `inner` lies within the bounding box of `self`.
    pub open spec fn contains(self, inner: Rect) -> bool {
        &&& self.x0 <= inner.x0
        &&& inner.x1 <= self.x1
        &&& self.y0 <= inner.y0
        &&& inner.y1 <= self.y1
    }

    /// The rectangle left when `top`, `bottom`, `left` and `right` pixels are
    /// taken off the four sides, or `None` when the insets of one axis add up to
    /// more than the extent on that axis.
    pub open spec fn spec_margin(self, top: u32, bottom: u32, left: u32, right: u32) -> Option<
        Rect,
    > {
        if left + right <= self.width() && top + bottom <= self.height() {
            Some(
                Rect {
                    x0: (self.x0 + left) as i32,
                    y0: (self.y0 + top) as i32,
                    x1: (self.x1 - right) as i32,
                    y1: (self.y1 - bottom) as i32,
                },
            )
        } else {
            None
        }
    }

    /// The rectangle between the corners `(x0, y0)` and `(x1, y1)`.
    pub fn new(x0: i32, y0: i32, x1: i32, y1: i32) -> (r: Rect)
        ensures
            r == (Rect { x0, y0, x1, y1 }),
    {
        Rect { x0, y0, x1, y1 }
    }

    /// True when neither extent is negative.
    pub fn is_wf(&self) -> (ok: bool)
        ensures
            ok == self.wf(),
    {
        self.x0 <= self.x1 && self.y0 <= self.y1
    }

    /// Width and height in pixels.
    pub fn dim_in_pixel(&self) -> (dim: (u32, u32))
        requires
            self.wf(),
        ensures
            dim.0 == self.width(),
            dim.1 == self.height(),
    {
        let w: i64 = self.x1 as i64 - self.x0 as i64;
        let h: i64 = self.y1 as i64 - self.y0 as i64;
        (w as u32, h as u32)
    }

    /// The columns and the rows that the rectangle covers, both increasing.
    pub fn get_pixel_range(&self) -> (ranges: (Range<i32>, Range<i32>))
        ensures
            ranges.0 == (self.x0..self.x1),
            ranges.1 == (self.y0..self.y1),
    {
        (self.x0..self.x1, self.y0..self.y1)
    }

    /// Takes `top`, `bottom`, `left` and `right` pixels off the four sides.
    /// Gives `None` when the insets do not fit in the rectangle; in one that is
    /// not well formed nothing fits.
    pub fn margin(&self, top: u32, bottom: u32, left: u32, right: u32) -> (inner: Option<Rect>)
        ensures
            inner == self.spec_margin(top, bottom, left, right),
            inner matches Some(r) ==> r.wf() && self.contains(r),
    {
        let w: i64 = self.x1 as i64 - self.x0 as i64;
        let h: i64 = self.y1 as i64 - self.y0 as i64;
        if left as i64 + right as i64 <= w && top as i64 + bottom as i64 <= h {
            Some(
                Rect {
                    x0: (self.x0 as i64 + left as i64) as i32,
                    y0: (self.y0 as i64 + top as i64) as i32,
                    x1: (self.x1 as i64 - right as i64) as i32,
                    y1: (self.y1 as i64 - bottom as i64) as i32,
                },
            )
        } else {
            None
        }
    }
}

} // verus!
