//! The chart builder: it collects margins, label areas and a title, and then
//! lays the chart out on its canvas.
//!
//! A chart is built in this order. The margins are taken off the canvas. If a
//! title is set, it is drawn at the top of what is left and the rows it took
//! are taken off as well. What remains is split into the plot region and the
//! label areas, and the plot region is bound to the two axes.

use crate::area::Rect;
use crate::context::ChartContext;
use crate::label::{spec_side_fits, LabelAreaPosition, LabelAreaSpec, LabelAreas, LayoutResult};
use crate::style::{TextStyle, Title};
use vstd::prelude::*;

verus! {

/// The pixels to leave free on each side of the canvas.
#[derive(Clone, Copy, Debug, PartialEq, Eq, Structural)]
pub struct Margin {
    pub top: u32,
    pub bottom: u32,
    pub left: u32,
    pub right: u32,
}

impl Margin {
    /// The same margin on all four sides.
    pub open spec fn uniform(size: u32) -> Margin {
        Margin { top: size, bottom: size, left: size, right: size }
    }

    /// These margins with the one on side `pos` replaced by `size`.
    pub open spec fn with(self, pos: LabelAreaPosition, size: u32) -> Margin {
        match pos {
            LabelAreaPosition::Top => Margin { top: size, ..self },
            LabelAreaPosition::Bottom => Margin { bottom: size, ..self },
            LabelAreaPosition::Left => Margin { left: size, ..self },
            LabelAreaPosition::Right => Margin { right: size, ..self },
        }
    }
}

/// Why a chart could not be laid out.
#[derive(Debug, PartialEq, Eq)]
pub enum LayoutError<E> {
    /// The margins of one axis add up to more than the canvas has.
    MarginTooLarge,
    /// The title took more rows than the margins had left.
    TitleTooTall,
    /// The title could not be drawn; the cause is handed on as it came.
    Backend(E),
}

/// What a builder has collected: the canvas, the margins, the label areas and
/// the title.
pub struct LayoutRequest {
    pub canvas: Rect,
    pub margin: Margin,
    pub labels: LabelAreas,
    pub title: Option<Title>,
}

impl LayoutRequest {
    /// What a new builder on `canvas` holds: no margin, no label area, nothing
    /// inset and no title.
    pub open spec fn initial(canvas: Rect) -> LayoutRequest {
        LayoutRequest { canvas, margin: Margin::uniform(0), labels: LabelAreas::spec_none(), title: None }
    }

    /// This request with all four margins set to `size`.
    pub open spec fn with_margin(self, size: u32) -> LayoutRequest {
        LayoutRequest { margin: Margin::uniform(size), ..self }
    }

    /// This request with the margin on side `pos` set to `size`.
    pub open spec fn with_side_margin(self, pos: LabelAreaPosition, size: u32) -> LayoutRequest {
        LayoutRequest { margin: self.margin.with(pos, size), ..self }
    }

    /// This request with the size of the label area on side `pos` set to `size`.
    pub open spec fn with_label_size(self, pos: LabelAreaPosition, size: i32) -> LayoutRequest {
        let side = LabelAreaSpec { size, ..self.labels.spec_get(pos) };
        LayoutRequest { labels: self.labels.spec_with(pos, side), ..self }
    }

    /// This request with the label area on side `pos` inset.
    pub open spec fn with_inset(self, pos: LabelAreaPosition) -> LayoutRequest {
        let side = LabelAreaSpec { inset: true, ..self.labels.spec_get(pos) };
        LayoutRequest { labels: self.labels.spec_with(pos, side), ..self }
    }

    /// This request with the title `title`.
    pub open spec fn with_title(self, title: Title) -> LayoutRequest {
        LayoutRequest { title: Some(title), ..self }
    }

    /// The canvas without its margins: the region that a title is drawn on.
    /// `None` when the margins do not fit in the canvas.
    pub open spec fn margin_area(self) -> Option<Rect> {
        self.canvas.spec_margin(self.margin.top, self.margin.bottom, self.margin.left, self.margin.right)
    }

    /// The region that is split into plot and label areas when the title took
    /// `rows` rows: the canvas without its margins and, if a title is set,
    /// without the topmost `rows` rows of what the margins left. `None` when
    /// the margins or the title do not fit.
    pub open spec fn plot_canvas(self, rows: u32) -> Option<Rect> {
        match self.margin_area() {
            None => None,
            Some(area) => if self.title is None {
                Some(area)
            } else {
                area.spec_margin(rows, 0, 0, 0)
            },
        }
    }

    /// The plot region and the label areas, or the reason why there are none,
    /// when drawing the title ended in `drawn`: the rows it took or the cause
    /// of its failure. Without a title `drawn` plays no part.
    pub open spec fn layout<E>(self, drawn: Result<u32, E>) -> Result<LayoutResult, LayoutError<E>> {
        match self.margin_area() {
            None => Err(LayoutError::MarginTooLarge),
            Some(area) => match (self.title, drawn) {
                (None, _) => Ok(self.labels.spec_layout(area)),
                (Some(_), Err(cause)) => Err(LayoutError::Backend(cause)),
                (Some(_), Ok(rows)) => match area.spec_margin(rows, 0, 0, 0) {
                    None => Err(LayoutError::TitleTooTall),
                    Some(rest) => Ok(self.labels.spec_layout(rest)),
                },
            },
        }
    }

    /// True when, with a title that took `rows` rows, every edge of the layout
    /// is a pixel coordinate.
    pub open spec fn fits_rows(self, rows: u32) -> bool {
        self.plot_canvas(rows) matches Some(canvas) ==> self.labels.spec_fits(canvas)
    }

    /// True when every edge of the layout is a pixel coordinate if drawing the
    /// title ended in `drawn`.
    pub open spec fn fits<E>(self, drawn: Result<u32, E>) -> bool {
        match drawn {
            Ok(rows) => self.fits_rows(rows),
            Err(_) => self.title is None ==> self.fits_rows(0),
        }
    }

    /// True when every edge of the layout is a pixel coordinate however many
    /// rows the title takes.
    pub open spec fn fits_any_title(self) -> bool {
        forall|rows: u32| #[trigger] self.fits_rows(rows)
    }
}

/// True when `built` is what `request` gives with the axes `x_spec` and
/// `y_spec` when drawing the title ended in `drawn`: the chart of its layout,
/// or the reason why there is none.
pub open spec fn is_build_of<X, Y, E>(
    built: Result<ChartContext<X, Y>, LayoutError<E>>,
    request: LayoutRequest,
    drawn: Result<u32, E>,
    x_spec: X,
    y_spec: Y,
) -> bool {
    match request.layout(drawn) {
        Ok(layout) => built matches Ok(chart) && chart.is_chart_of(layout, x_spec, y_spec),
        Err(reason) => built matches Err(e) && e == reason,
    }
}

/// If a layout fits on `area` and on `area` without all of its rows, it fits on
/// `area` without its rows above `y`.
proof fn lemma_fits_between(labels: LabelAreas, area: Rect, y: int)
    requires
        area.wf(),
        area.y0 <= y <= area.y1,
        labels.spec_fits(area),
        labels.spec_fits(Rect { y0: area.y1, ..area }),
    ensures
        labels.spec_fits(Rect { y0: y as i32, ..area }),
{
    let spent = Rect { y0: area.y1, ..area };
    let rest = Rect { y0: y as i32, ..area };
    assert forall|pos: LabelAreaPosition| #[trigger]
        spec_side_fits(labels.spec_get(pos), pos, labels.interior(rest)) by {
        assert(spec_side_fits(labels.spec_get(pos), pos, labels.interior(area)));
        assert(spec_side_fits(labels.spec_get(pos), pos, labels.interior(spent)));
    }
}

/// Collects what a chart needs and lays it out on a canvas that it borrows.
pub struct ChartBuilder<'a> {
    label_areas: LabelAreas,
    root_area: &'a Rect,
    title: Option<Title>,
    margin: Margin,
}

impl<'a> View for ChartBuilder<'a> {
    type V = LayoutRequest;

    closed spec fn view(&self) -> LayoutRequest {
        LayoutRequest {
            canvas: *self.root_area,
            margin: self.margin,
            labels: self.label_areas,
            title: self.title,
        }
    }
}

impl<'a> ChartBuilder<'a> {
    /// A builder for a chart on the canvas `root`.
    pub fn on(root: &'a Rect) -> (builder: Self)
        ensures
            builder@ == LayoutRequest::initial(*root),
    {
        Self {
            label_areas: LabelAreas::none(),
            root_area: root,
            title: None,
            margin: Margin { top: 0, bottom: 0, left: 0, right: 0 },
        }
    }

    /// Sets the margin on all four sides.
    pub fn margin(&mut self, size: u32) -> (ret: &mut Self)
        ensures
            ret@ == old(self)@.with_margin(size),
            *final(self) == *final(ret),
    {
        self.margin = Margin { top: size, bottom: size, left: size, right: size };
        self
    }

    /// Sets the margin at the top.
    pub fn margin_top(&mut self, size: u32) -> (ret: &mut Self)
        ensures
            ret@ == old(self)@.with_side_margin(LabelAreaPosition::Top, size),
            *final(self) == *final(ret),
    {
        self.margin.top = size;
        self
    }

    /// Sets the margin at the bottom.
    pub fn margin_bottom(&mut self, size: u32) -> (ret: &mut Self)
        ensures
            ret@ == old(self)@.with_side_margin(LabelAreaPosition::Bottom, size),
            *final(self) == *final(ret),
    {
        self.margin.bottom = size;
        self
    }

    /// Sets the margin on the left.
    pub fn margin_left(&mut self, size: u32) -> (ret: &mut Self)
        ensures
            ret@ == old(self)@.with_side_margin(LabelAreaPosition::Left, size),
            *final(self) == *final(ret),
    {
        self.margin.left = size;
        self
    }

    /// Sets the margin on the right.
    pub fn margin_right(&mut self, size: u32) -> (ret: &mut Self)
        ensures
            ret@ == old(self)@.with_side_margin(LabelAreaPosition::Right, size),
            *final(self) == *final(ret),
    {
        self.margin.right = size;
        self
    }

    /// Sets the height of the label area of the `x` axis, below the plot.
    /// With 0 the chart has no such label area.
    pub fn x_label_area_size(&mut self, size: i32) -> (ret: &mut Self)
        ensures
            ret@ == old(self)@.with_label_size(LabelAreaPosition::Bottom, size),
            *final(self) == *final(ret),
    {
        self.label_areas.bottom.size = size;
        self
    }

    /// Lays the label area below the plot over the plot.
    pub fn inset_x_labels(&mut self) -> (ret: &mut Self)
        ensures
            ret@ == old(self)@.with_inset(LabelAreaPosition::Bottom),
            *final(self) == *final(ret),
    {
        self.label_areas.bottom.inset = true;
        self
    }

    /// Sets the width of the label area of the `y` axis, left of the plot.
    /// With 0 the chart has no such label area.
    pub fn y_label_area_size(&mut self, size: i32) -> (ret: &mut Self)
        ensures
            ret@ == old(self)@.with_label_size(LabelAreaPosition::Left, size),
            *final(self) == *final(ret),
    {
        self.label_areas.left.size = size;
        self
    }

    /// Lays the label area left of the plot over the plot.
    pub fn inset_y_labels(&mut self) -> (ret: &mut Self)
        ensures
            ret@ == old(self)@.with_inset(LabelAreaPosition::Left),
            *final(self) == *final(ret),
    {
        self.label_areas.left.inset = true;
        self
    }

    /// Sets the height of the label area above the plot.
    /// With 0 the chart has no such label area.
    pub fn top_x_label_area_size(&mut self, size: i32) -> (ret: &mut Self)
        ensures
            ret@ == old(self)@.with_label_size(LabelAreaPosition::Top, size),
            *final(self) == *final(ret),
    {
        self.label_areas.top.size = size;
        self
    }

    /// Lays the label area above the plot over the plot.
    pub fn inset_top_x_labels(&mut self) -> (ret: &mut Self)
        ensures
            ret@ == old(self)@.with_inset(LabelAreaPosition::Top),
            *final(self) == *final(ret),
    {
        self.label_areas.top.inset = true;
        self
    }

    /// Sets the width of the label area right of the plot.
    /// With 0 the chart has no such label area.
    pub fn right_y_label_area_size(&mut self, size: i32) -> (ret: &mut Self)
        ensures
            ret@ == old(self)@.with_label_size(LabelAreaPosition::Right, size),
            *final(self) == *final(ret),
    {
        self.label_areas.right.size = size;
        self
    }

    /// Lays the label area right of the plot over the plot.
    pub fn inset_right_y_labels(&mut self) -> (ret: &mut Self)
        ensures
            ret@ == old(self)@.with_inset(LabelAreaPosition::Right),
            *final(self) == *final(ret),
    {
        self.label_areas.right.inset = true;
        self
    }

    /// Sets the size of the label area on side `pos`.
    pub fn set_label_area_size(&mut self, pos: LabelAreaPosition, size: i32) -> (ret: &mut Self)
        ensures
            ret@ == old(self)@.with_label_size(pos, size),
            *final(self) == *final(ret),
    {
        let side = LabelAreaSpec { size, inset: self.label_areas.get(pos).inset };
        self.label_areas.set(pos, side);
        self
    }

    /// Sets the title of the chart and the style it is drawn in. The title is
    /// drawn inside the margins, and the plot and its label areas get what is
    /// left below it.
    pub fn caption(&mut self, caption: &str, style: TextStyle) -> (ret: &mut Self)
        ensures
            ret@.title matches Some(title) && title.text@ == caption@ && title.style == style,
            ret@ == (LayoutRequest { title: ret@.title, ..old(self)@ }),
            *final(self) == *final(ret),
    {
        self.title = Some(Title { text: caption.to_owned(), style });
        self
    }

    /// True when every edge of the layout is a pixel coordinate if drawing the
    /// title ends in `drawn`.
    pub fn fits<E>(&self, drawn: &Result<u32, E>) -> (ok: bool)
        ensures
            ok == self@.fits(*drawn),
    {
        match self.root_area.margin(self.margin.top, self.margin.bottom, self.margin.left, self.margin.right) {
            None => true,
            Some(area) => match (&self.title, drawn) {
                (None, _) => self.label_areas.fits(&area),
                (Some(_), Err(_)) => true,
                (Some(_), Ok(rows)) => match area.margin(*rows, 0, 0, 0) {
                    None => true,
                    Some(rest) => self.label_areas.fits(&rest),
                },
            },
        }
    }

    /// True when every edge of the layout is a pixel coordinate however many
    /// rows the title takes.
    pub fn fits_any_title(&self) -> (ok: bool)
        ensures
            ok == self@.fits_any_title(),
    {
        match self.root_area.margin(self.margin.top, self.margin.bottom, self.margin.left, self.margin.right) {
            None => true,
            Some(area) => {
                if self.title.is_none() {
                    let ok = self.label_areas.fits(&area);
                    proof {
                        assert(self@.fits_rows(0) == ok);
                    }
                    ok
                } else {
                    let spent = Rect { x0: area.x0, y0: area.y1, x1: area.x1, y1: area.y1 };
                    let ok = self.label_areas.fits(&area) && self.label_areas.fits(&spent);
                    proof {
                        let height = (area.y1 - area.y0) as u32;
                        assert(self@.plot_canvas(0) == Some(area));
                        assert(self@.plot_canvas(height) == Some(spent));
                        if ok {
                            assert forall|rows: u32| #[trigger] self@.fits_rows(rows) by {
                                if rows <= height {
                                    lemma_fits_between(self.label_areas, area, area.y0 + rows);
                                }
                            }
                        } else {
                            assert(!self@.fits_rows(0) || !self@.fits_rows(height));
                        }
                    }
                    ok
                }
            },
        }
    }

    /// Lays the chart out once the title has been dealt with. `drawn` tells
    /// how drawing the title ended: the rows it took, or the cause of its
    /// failure. Without a title `drawn` plays no part.
    pub fn build_with_title<X, Y, E>(&self, drawn: Result<u32, E>, x_spec: X, y_spec: Y) -> (built: Result<
        ChartContext<X, Y>,
        LayoutError<E>,
    >)
        requires
            self@.fits(drawn),
        ensures
            is_build_of(built, self@, drawn, x_spec, y_spec),
    {
        let area = match self.root_area.margin(
            self.margin.top,
            self.margin.bottom,
            self.margin.left,
            self.margin.right,
        ) {
            Some(area) => area,
            None => { return Err(LayoutError::MarginTooLarge); },
        };
        let canvas = match (&self.title, drawn) {
            (None, _) => area,
            (Some(_), Err(cause)) => { return Err(LayoutError::Backend(cause)); },
            (Some(_), Ok(rows)) => match area.margin(rows, 0, 0, 0) {
                Some(rest) => rest,
                None => { return Err(LayoutError::TitleTooTall); },
            },
        };
        Ok(ChartContext::new(self.label_areas.layout(&canvas), x_spec, y_spec))
    }

    /// Builds the chart with the axes `x_spec` and `y_spec`. If a title is set
    /// and the margins fit, `draw_title` is called once with the canvas inside
    /// the margins, the text of the title and its style; it tells how many rows
    /// at the top of that region the title took.
    pub fn build_ranged<X, Y, E, F>(&mut self, x_spec: X, y_spec: Y, draw_title: F) -> (built: Result<
        ChartContext<X, Y>,
        LayoutError<E>,
    >) where F: FnOnce(&Rect, &String, &TextStyle) -> Result<u32, E>
        requires
            old(self)@.fits_any_title(),
            old(self)@.title matches Some(title) ==> (old(self)@.margin_area() matches Some(area)
                ==> call_requires(draw_title, (&area, &title.text, &title.style))),
        ensures
            *final(self) == *old(self),
            old(self)@.title is None ==> is_build_of(built, old(self)@, Ok(0), x_spec, y_spec),
            old(self)@.title matches Some(title) ==> match old(self)@.margin_area() {
                None => built == Err::<ChartContext<X, Y>, LayoutError<E>>(LayoutError::MarginTooLarge),
                Some(area) => exists|drawn: Result<u32, E>|
                    call_ensures(draw_title, (&area, &title.text, &title.style), drawn) && #[trigger] is_build_of(
                        built,
                        old(self)@,
                        drawn,
                        x_spec,
                        y_spec,
                    ),
            },
    {
        let drawn: Result<u32, E> = match (
            &self.title,
            self.root_area.margin(self.margin.top, self.margin.bottom, self.margin.left, self.margin.right),
        ) {
            (Some(title), Some(area)) => draw_title(&area, &title.text, &title.style),
            _ => Ok(0),
        };
        proof {
            match drawn {
                Ok(rows) => {
                    assert(self@.fits_rows(rows));
                },
                Err(_) => {
                    assert(self@.fits_rows(0));
                },
            }
        }
        self.build_with_title(drawn, x_spec, y_spec)
    }
}

} // verus!
