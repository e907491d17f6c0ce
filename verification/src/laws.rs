//! What holds of every layout, proved from the definitions of the other modules.

use crate::area::Rect;
use crate::builder::LayoutRequest;
use crate::coord::spec_bind;
use crate::label::{LabelAreaPosition, LabelAreaSpec, LabelAreas};
use crate::style::Title;
use vstd::prelude::*;

verus! {

/// The thickness of `area` as a label area on side `pos`: its height at the
/// top and at the bottom, its width on the left and on the right.
pub open spec fn thickness(area: Rect, pos: LabelAreaPosition) -> int {
    match pos {
        LabelAreaPosition::Top | LabelAreaPosition::Bottom => area.height(),
        LabelAreaPosition::Left | LabelAreaPosition::Right => area.width(),
    }
}

/// True when `area` is as long as the edge of `interior` on side `pos` and
/// lies along it.
pub open spec fn spans_edge(area: Rect, interior: Rect, pos: LabelAreaPosition) -> bool {
    match pos {
        LabelAreaPosition::Top | LabelAreaPosition::Bottom => area.x0 == interior.x0 && area.x1 == interior.x1,
        LabelAreaPosition::Left | LabelAreaPosition::Right => area.y0 == interior.y0 && area.y1 == interior.y1,
    }
}

/// True when `area` lies outside `interior` and touches its edge on side `pos`.
pub open spec fn adjoins(area: Rect, interior: Rect, pos: LabelAreaPosition) -> bool {
    match pos {
        LabelAreaPosition::Top => area.y1 == interior.y0,
        LabelAreaPosition::Bottom => area.y0 == interior.y1,
        LabelAreaPosition::Left => area.x1 == interior.x0,
        LabelAreaPosition::Right => area.x0 == interior.x1,
    }
}

/// True when `area` starts at the edge of `interior` on side `pos` and goes
/// inwards from there.
pub open spec fn flush_with(area: Rect, interior: Rect, pos: LabelAreaPosition) -> bool {
    match pos {
        LabelAreaPosition::Top => area.y0 == interior.y0,
        LabelAreaPosition::Bottom => area.y1 == interior.y1,
        LabelAreaPosition::Left => area.x0 == interior.x0,
        LabelAreaPosition::Right => area.x1 == interior.x1,
    }
}

/// Carved label areas and the plot share the width of the canvas: where the
/// left and the right label area are not inset, have sizes that are not
/// negative and fit in the canvas together, the width of the plot and the two
/// sizes add up to the width of the canvas. The plot then starts where the left
/// label area ends and ends where the right one starts.
pub proof fn lemma_carved_widths_add_up(labels: LabelAreas, canvas: Rect)
    requires
        !labels.left.inset,
        !labels.right.inset,
        labels.left.size >= 0,
        labels.right.size >= 0,
        labels.left.size + labels.right.size <= canvas.width(),
    ensures
        labels.interior(canvas).width() + labels.left.size + labels.right.size == canvas.width(),
        labels.interior(canvas).x0 == canvas.x0 + labels.left.size,
        labels.interior(canvas).x1 == canvas.x1 - labels.right.size,
{
}

/// Carved label areas and the plot share the height of the canvas: where the
/// top and the bottom label area are not inset, have sizes that are not
/// negative and fit in the canvas together, the height of the plot and the two
/// sizes add up to the height of the canvas. The plot then starts where the top
/// label area ends and ends where the bottom one starts.
pub proof fn lemma_carved_heights_add_up(labels: LabelAreas, canvas: Rect)
    requires
        !labels.top.inset,
        !labels.bottom.inset,
        labels.top.size >= 0,
        labels.bottom.size >= 0,
        labels.top.size + labels.bottom.size <= canvas.height(),
    ensures
        labels.interior(canvas).height() + labels.top.size + labels.bottom.size == canvas.height(),
        labels.interior(canvas).y0 == canvas.y0 + labels.top.size,
        labels.interior(canvas).y1 == canvas.y1 - labels.bottom.size,
{
}

/// A carved label area is as thick as its size: where no side is inset, no
/// size is negative and the sizes of each axis fit in the canvas, a label area
/// that exists is as thick as the size asked for, as long as the edge of the
/// plot that it lies along, outside the plot and within the canvas. It exists
/// unless its size is 0 or the plot has no pixel along that edge.
pub proof fn lemma_carved_label_area(labels: LabelAreas, canvas: Rect, pos: LabelAreaPosition)
    requires
        forall|p: LabelAreaPosition| !(#[trigger] labels.spec_get(p)).inset && labels.spec_get(p).size >= 0,
        labels.left.size + labels.right.size <= canvas.width(),
        labels.top.size + labels.bottom.size <= canvas.height(),
    ensures
        labels.label_area(canvas, pos) matches Some(area) ==> {
            &&& thickness(area, pos) == labels.spec_get(pos).size
            &&& spans_edge(area, labels.interior(canvas), pos)
            &&& adjoins(area, labels.interior(canvas), pos)
            &&& canvas.contains(area)
        },
        labels.label_area(canvas, pos) is None <==> labels.spec_get(pos).size == 0 || match pos {
            LabelAreaPosition::Top | LabelAreaPosition::Bottom => labels.interior(canvas).width() == 0,
            LabelAreaPosition::Left | LabelAreaPosition::Right => labels.interior(canvas).height() == 0,
        },
{
    assert(!labels.spec_get(LabelAreaPosition::Top).inset && labels.spec_get(LabelAreaPosition::Top).size >= 0);
    assert(!labels.spec_get(LabelAreaPosition::Bottom).inset && labels.spec_get(LabelAreaPosition::Bottom).size >= 0);
    assert(!labels.spec_get(LabelAreaPosition::Left).inset && labels.spec_get(LabelAreaPosition::Left).size >= 0);
    assert(!labels.spec_get(LabelAreaPosition::Right).inset && labels.spec_get(LabelAreaPosition::Right).size >= 0);
}

/// An inset label area lies over the edge of the plot: on a side that is inset
/// with a positive size there is a label area, as thick as that size, as long
/// as the edge of the plot that it lies along, and going inwards from that
/// edge. It lies within the plot if and only if the plot is at least that
/// thick along the same axis.
pub proof fn lemma_inset_label_area(labels: LabelAreas, canvas: Rect, pos: LabelAreaPosition)
    requires
        labels.spec_fits(canvas),
        labels.spec_get(pos).inset,
        labels.spec_get(pos).size > 0,
    ensures
        labels.label_area(canvas, pos) matches Some(area) && {
            &&& thickness(area, pos) == labels.spec_get(pos).size
            &&& spans_edge(area, labels.interior(canvas), pos)
            &&& flush_with(area, labels.interior(canvas), pos)
            &&& (labels.interior(canvas).contains(area) <==> labels.spec_get(pos).size <= thickness(
                labels.interior(canvas),
                pos,
            ))
        },
{
    crate::split::lemma_nth_of_four_sorts(
        canvas.x0 as int,
        canvas.x1 as int,
        canvas.x0 + labels.x_breaks(canvas).0,
        canvas.x0 + labels.x_breaks(canvas).1,
    );
    crate::split::lemma_nth_of_four_sorts(
        canvas.y0 as int,
        canvas.y1 as int,
        canvas.y0 + labels.y_breaks(canvas).0,
        canvas.y0 + labels.y_breaks(canvas).1,
    );
    assert(crate::label::spec_side_fits(labels.spec_get(pos), pos, labels.interior(canvas)));
}

/// An inset label area leaves the plot as it is: the plot region is the same
/// whatever size an inset side has, and the same as without a label area on
/// that side.
pub proof fn lemma_inset_keeps_interior(labels: LabelAreas, canvas: Rect, pos: LabelAreaPosition, size: i32)
    ensures
        labels.spec_with(pos, LabelAreaSpec { size, inset: true }).interior(canvas) == labels.spec_with(
            pos,
            LabelAreaSpec { size: 0, inset: false },
        ).interior(canvas),
{
}

/// A side whose size is 0 has no label area, inset or not.
pub proof fn lemma_no_size_no_label_area(labels: LabelAreas, canvas: Rect, pos: LabelAreaPosition)
    requires
        labels.spec_get(pos).size == 0,
    ensures
        labels.label_area(canvas, pos) is None,
        labels.spec_layout(canvas).label(pos) is None,
{
}

/// Setting the margin of all sides at once is setting it side by side: both
/// give the same request, and so the same layout however drawing the title
/// ends.
pub proof fn lemma_margin_sets_every_side<E>(request: LayoutRequest, size: u32, drawn: Result<u32, E>)
    ensures
        request.with_margin(size) == request.with_side_margin(LabelAreaPosition::Top, size).with_side_margin(
            LabelAreaPosition::Bottom,
            size,
        ).with_side_margin(LabelAreaPosition::Left, size).with_side_margin(LabelAreaPosition::Right, size),
        request.with_margin(size).layout(drawn) == request.with_side_margin(
            LabelAreaPosition::Top,
            size,
        ).with_side_margin(LabelAreaPosition::Bottom, size).with_side_margin(
            LabelAreaPosition::Left,
            size,
        ).with_side_margin(LabelAreaPosition::Right, size).layout(drawn),
{
}

/// The vertical pixel range of a plot is inverted: on any region the `x` axis
/// runs from the left edge to the right edge, and the `y` axis from the bottom
/// edge to the top edge.
pub proof fn lemma_plot_pixel_range<X, Y>(interior: Rect, x_spec: X, y_spec: Y)
    ensures
        spec_bind(interior, x_spec, y_spec).coord.back_x == (interior.x0, interior.x1),
        spec_bind(interior, x_spec, y_spec).coord.back_y == (interior.y1, interior.y0),
{
}

/// The margins come first and the title second, in whatever order they were
/// set. Setting the margin before the title gives the same request as setting
/// it after. Where margins and title fit, the region that is split starts
/// below the top margin and the rows of the title, and the margins bound its
/// other three sides.
pub proof fn lemma_margin_then_title(request: LayoutRequest, size: u32, title: Title, rows: u32)
    ensures
        request.with_margin(size).with_title(title) == request.with_title(title).with_margin(size),
        ({
            let titled = request.with_title(title);
            let canvas = titled.canvas;
            let margin = titled.margin;
            if margin.left + margin.right <= canvas.width() && margin.top + margin.bottom + rows <= canvas.height() {
                titled.plot_canvas(rows) == Some(
                    Rect {
                        x0: (canvas.x0 + margin.left) as i32,
                        y0: (canvas.y0 + margin.top + rows) as i32,
                        x1: (canvas.x1 - margin.right) as i32,
                        y1: (canvas.y1 - margin.bottom) as i32,
                    },
                )
            } else {
                titled.plot_canvas(rows) is None
            }
        }),
{
}

/// The height of the plot accounts for the margins, the title and the carved
/// label areas: where the title took `rows` rows, the top and the bottom label
/// area are not inset, their sizes are not negative, and all of these fit in
/// the height of the canvas, the height of the plot is what is left of it.
pub proof fn lemma_plot_height<E>(request: LayoutRequest, rows: u32)
    requires
        request.title is Some,
        !request.labels.top.inset,
        !request.labels.bottom.inset,
        request.labels.top.size >= 0,
        request.labels.bottom.size >= 0,
        request.margin.left + request.margin.right <= request.canvas.width(),
        request.margin.top + request.margin.bottom + rows + request.labels.top.size + request.labels.bottom.size
            <= request.canvas.height(),
    ensures
        request.layout::<E>(Ok(rows)) matches Ok(layout) && layout.interior.height() == request.canvas.height()
            - request.margin.top - request.margin.bottom - rows - request.labels.top.size
            - request.labels.bottom.size,
{
    let area = request.margin_area()->Some_0;
    let rest = area.spec_margin(rows, 0, 0, 0)->Some_0;
    lemma_carved_heights_add_up(request.labels, rest);
}

} // verus!
