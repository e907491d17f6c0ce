//! The chart that a builder produces.

use crate::area::Rect;
use crate::coord::{spec_bind, PlotArea};
use crate::label::LayoutResult;
use vstd::prelude::*;

verus! {

/// What is recorded of a data series once it has been drawn on a chart.
#[derive(Clone, Debug, PartialEq, Eq)]
pub struct SeriesAnno {
    pub label: Option<String>,
}

/// A chart that is laid out and ready for data series: the plot region with
/// its coordinate system, the label areas of the `x` axis (top, then bottom)
/// and of the `y` axis (left, then right), and the series drawn so far.
#[derive(Debug, PartialEq, Eq)]
pub struct ChartContext<X, Y> {
    pub x_label_area: [Option<Rect>; 2],
    pub y_label_area: [Option<Rect>; 2],
    pub drawing_area: PlotArea<X, Y>,
    pub series_anno: Vec<SeriesAnno>,
}

impl<X, Y> ChartContext<X, Y> {
    /// True when this chart is the one that `layout` gives with the axes
    /// `x_spec` and `y_spec` and no series yet.
    pub open spec fn is_chart_of(self, layout: LayoutResult, x_spec: X, y_spec: Y) -> bool {
        &&& self.x_label_area[0] == layout.top
        &&& self.x_label_area[1] == layout.bottom
        &&& self.y_label_area[0] == layout.left
        &&& self.y_label_area[1] == layout.right
        &&& self.drawing_area == spec_bind(layout.interior, x_spec, y_spec)
        &&& self.series_anno@.len() == 0
    }

    /// Puts the regions of `layout` and the two axes together into a chart
    /// without series.
    pub fn new(layout: LayoutResult, x_spec: X, y_spec: Y) -> (chart: Self)
        ensures
            chart.is_chart_of(layout, x_spec, y_spec),
    {
        ChartContext {
            x_label_area: [layout.top, layout.bottom],
            y_label_area: [layout.left, layout.right],
            drawing_area: layout.interior.bind(x_spec, y_spec),
            series_anno: Vec::new(),
        }
    }
}

} // verus!
