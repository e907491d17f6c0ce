//! Binding the plot region to a coordinate system with two axes.
//!
//! Pixel rows are stored top-down while values are plotted bottom-up, so the
//! vertical pixel range of a plot runs from its bottom edge to its top edge.

use crate::area::Rect;
use core::ops::Range;
use vstd::prelude::*;

verus! {

/// A coordinate system with two axes: what describes the values along `x` and
/// along `y`, and the pixel range that each axis is drawn on. A pixel range
/// goes from the pixel of the smallest value to the pixel after that of the
/// largest, so it descends where values grow against the pixel count.
#[derive(Debug, PartialEq, Eq)]
pub struct RangedCoord<X, Y> {
    pub logic_x: X,
    pub logic_y: Y,
    pub back_x: (i32, i32),
    pub back_y: (i32, i32),
}

impl<X, Y> RangedCoord<X, Y> {
    /// The coordinate system of the two axis descriptions on the pixel ranges
    /// `actual`, the first along `x` and the second along `y`.
    pub fn new(logic_x: X, logic_y: Y, actual: (Range<i32>, Range<i32>)) -> (coord: Self)
        ensures
            coord.logic_x == logic_x,
            coord.logic_y == logic_y,
            coord.back_x == (actual.0.start, actual.0.end),
            coord.back_y == (actual.1.start, actual.1.end),
    {
        RangedCoord {
            logic_x,
            logic_y,
            back_x: (actual.0.start, actual.0.end),
            back_y: (actual.1.start, actual.1.end),
        }
    }

}

/// A region of pixels together with the coordinate system that is drawn on it.
#[derive(Debug, PartialEq, Eq)]
pub struct PlotArea<X, Y> {
    pub rect: Rect,
    pub coord: RangedCoord<X, Y>,
}

/// The coordinate system of a plot on `interior`: the `x` axis runs over its
/// columns from left to right, the `y` axis over its rows from the bottom up.
pub open spec fn spec_plot_coord<X, Y>(interior: Rect, x_spec: X, y_spec: Y) -> RangedCoord<X, Y> {
    RangedCoord {
        logic_x: x_spec,
        logic_y: y_spec,
        back_x: (interior.x0, interior.x1),
        back_y: (interior.y1, interior.y0),
    }
}

/// The plot on `interior` with the axes `x_spec` and `y_spec`.
pub open spec fn spec_bind<X, Y>(interior: Rect, x_spec: X, y_spec: Y) -> PlotArea<X, Y> {
    PlotArea { rect: interior, coord: spec_plot_coord(interior, x_spec, y_spec) }
}

impl Rect {
    /// The pixel ranges of a plot on this rectangle: its columns from left to
    /// right, and its rows from the bottom up.
    pub fn plot_pixel_range(&self) -> (ranges: (Range<i32>, Range<i32>))
        ensures
            ranges.0 == (self.x0..self.x1),
            ranges.1 == (self.y1..self.y0),
    {
        let mut pixel_range = self.get_pixel_range();
        pixel_range.1 = pixel_range.1.end..pixel_range.1.start;
        pixel_range
    }

    /// This region with the coordinate system `coord` drawn on it.
    pub fn apply_coord_spec<X, Y>(&self, coord: RangedCoord<X, Y>) -> (bound: PlotArea<X, Y>)
        ensures
            bound == (PlotArea { rect: *self, coord }),
    {
        PlotArea { rect: *self, coord }
    }

    /// Binds this region to the axes `x_spec` and `y_spec`.
    pub fn bind<X, Y>(&self, x_spec: X, y_spec: Y) -> (bound: PlotArea<X, Y>)
        ensures
            bound == spec_bind(*self, x_spec, y_spec),
            bound.coord.back_x == (self.x0, self.x1),
            bound.coord.back_y == (self.y1, self.y0),
    {
        let pixel_range = self.plot_pixel_range();
        self.apply_coord_spec(RangedCoord::new(x_spec, y_spec, pixel_range))
    }
}

} // verus!
