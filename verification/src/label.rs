//! Label areas: the regions on the four sides of the plot that hold tick
//! labels and axis titles.
//!
//! A label area is either carved out of the canvas, which makes the plot
//! smaller, or inset, which lays it over the edge of the plot and leaves the
//! plot as it is. A side whose size is 0 has no label area.

use crate::area::{is_coord, Rect};
use vstd::prelude::*;

verus! {

/// The side of the plot on which a label area lies.
#[derive(Clone, Copy, Debug, PartialEq, Eq, Structural)]
pub enum LabelAreaPosition {
    Top,
    Bottom,
    Left,
    Right,
}

impl LabelAreaPosition {
    /// The direction that points from the plot to this side, as a step in
    /// `x` and a step in `y`.
    pub open spec fn spec_direction(self) -> (int, int) {
        match self {
            LabelAreaPosition::Top => (0, -1),
            LabelAreaPosition::Bottom => (0, 1),
            LabelAreaPosition::Left => (-1, 0),
            LabelAreaPosition::Right => (1, 0),
        }
    }

    /// The row and the column of the grid cell that borders the plot on this side.
    pub open spec fn spec_grid_cell(self) -> (int, int) {
        let (dx, dy) = self.spec_direction();
        (1 + dy, 1 + dx)
    }

    /// The direction that points from the plot to this side.
    pub fn direction(self) -> (d: (i32, i32))
        ensures
            d.0 == self.spec_direction().0,
            d.1 == self.spec_direction().1,
    {
        match self {
            LabelAreaPosition::Top => (0, -1),
            LabelAreaPosition::Bottom => (0, 1),
            LabelAreaPosition::Left => (-1, 0),
            LabelAreaPosition::Right => (1, 0),
        }
    }

    /// The place, in a grid listed row by row, of the cell that borders the
    /// plot on this side.
    pub fn grid_index(self) -> (i: usize)
        ensures
            i == 3 * self.spec_grid_cell().0 + self.spec_grid_cell().1,
    {
        let (dx, dy) = self.direction();
        (4 + 3 * dy + dx) as usize
    }
}

/// What is asked for on one side: the thickness of the label area in pixels
/// and whether it is inset.
#[derive(Clone, Copy, Debug, PartialEq, Eq, Structural)]
pub struct LabelAreaSpec {
    pub size: i32,
    pub inset: bool,
}

impl LabelAreaSpec {
    /// The pixels that this side takes from the canvas: none when inset.
    pub open spec fn carved(self) -> int {
        if self.inset {
            0
        } else {
            self.size as int
        }
    }

    /// By how much the edge of the plot on side `pos` moves along its axis:
    /// forwards on the top and on the left, backwards on the bottom and on the
    /// right, so that a positive size moves the edge inwards.
    pub open spec fn spec_split_point(self, pos: LabelAreaPosition) -> int {
        let (dx, dy) = pos.spec_direction();
        if dx + dy < 0 {
            self.carved()
        } else {
            -self.carved()
        }
    }

    /// By how much the edge of the plot on side `pos` moves along its axis.
    pub fn split_point(&self, pos: LabelAreaPosition) -> (shift: i64)
        ensures
            shift == self.spec_split_point(pos),
    {
        let (dx, dy) = pos.direction();
        if self.inset {
            0
        } else if dx + dy < 0 {
            self.size as i64
        } else {
            -(self.size as i64)
        }
    }
}

/// The plot region and the label areas that a canvas was split into.
#[derive(Clone, Copy, Debug, PartialEq, Eq, Structural)]
pub struct LayoutResult {
    pub interior: Rect,
    pub top: Option<Rect>,
    pub bottom: Option<Rect>,
    pub left: Option<Rect>,
    pub right: Option<Rect>,
}

impl LayoutResult {
    /// The label area on side `pos`, if there is one.
    pub open spec fn label(self, pos: LabelAreaPosition) -> Option<Rect> {
        match pos {
            LabelAreaPosition::Top => self.top,
            LabelAreaPosition::Bottom => self.bottom,
            LabelAreaPosition::Left => self.left,
            LabelAreaPosition::Right => self.right,
        }
    }
}

/// The label area laid over the edge of `interior` on side `pos`: `size`
/// pixels thick, and as long as that edge.
pub open spec fn spec_inset_area(interior: Rect, pos: LabelAreaPosition, size: int) -> Rect {
    match pos {
        LabelAreaPosition::Top => Rect { y1: (interior.y0 + size) as i32, ..interior },
        LabelAreaPosition::Bottom => Rect { y0: (interior.y1 - size) as i32, ..interior },
        LabelAreaPosition::Left => Rect { x1: (interior.x0 + size) as i32, ..interior },
        LabelAreaPosition::Right => Rect { x0: (interior.x1 - size) as i32, ..interior },
    }
}

/// True when the inner edge of that label area is a pixel coordinate.
pub open spec fn inset_fits(interior: Rect, pos: LabelAreaPosition, size: int) -> bool {
    match pos {
        LabelAreaPosition::Top => is_coord(interior.y0 + size),
        LabelAreaPosition::Bottom => is_coord(interior.y1 - size),
        LabelAreaPosition::Left => is_coord(interior.x0 + size),
        LabelAreaPosition::Right => is_coord(interior.x1 - size),
    }
}

/// The label area laid over the edge of `interior` on side `pos`.
pub fn inset_area(interior: &Rect, pos: LabelAreaPosition, size: i32) -> (area: Rect)
    requires
        size > 0,
        inset_fits(*interior, pos, size as int),
    ensures
        area == spec_inset_area(*interior, pos, size as int),
        interior.wf() ==> area.wf(),
{
    match pos {
        LabelAreaPosition::Top => Rect {
            x0: interior.x0,
            y0: interior.y0,
            x1: interior.x1,
            y1: interior.y0 + size,
        },
        LabelAreaPosition::Bottom => Rect {
            x0: interior.x0,
            y0: interior.y1 - size,
            x1: interior.x1,
            y1: interior.y1,
        },
        LabelAreaPosition::Left => Rect {
            x0: interior.x0,
            y0: interior.y0,
            x1: interior.x0 + size,
            y1: interior.y1,
        },
        LabelAreaPosition::Right => Rect {
            x0: interior.x1 - size,
            y0: interior.y0,
            x1: interior.x1,
            y1: interior.y1,
        },
    }
}

/// A grid cell as a label area: the cell itself, unless it holds no pixel.
pub open spec fn spec_band(cell: Rect) -> Option<Rect> {
    if cell.is_empty() {
        None
    } else {
        Some(cell)
    }
}

/// A grid cell as a label area: the cell itself, unless it holds no pixel.
pub fn band(cell: &Rect) -> (area: Option<Rect>)
    ensures
        area == spec_band(*cell),
        area matches Some(r) ==> r.wf(),
{
    if cell.x0 < cell.x1 && cell.y0 < cell.y1 {
        Some(*cell)
    } else {
        None
    }
}

/// The label area of one side, given the grid cell `cell` beside the plot and
/// the plot region `interior`. There is none where the size is 0. An inset side
/// gets the strip over the edge of the plot, if its size is positive. Any other
/// side gets the cell, unless that cell holds no pixel.
pub open spec fn spec_resolve(side: LabelAreaSpec, pos: LabelAreaPosition, cell: Rect, interior: Rect) -> Option<
    Rect,
> {
    if side.size == 0 {
        None
    } else if side.inset {
        if side.size > 0 {
            Some(spec_inset_area(interior, pos, side.size as int))
        } else {
            None
        }
    } else {
        spec_band(cell)
    }
}

/// True when the label area of that side, if it is inset, has a pixel
/// coordinate for its inner edge.
pub open spec fn spec_side_fits(side: LabelAreaSpec, pos: LabelAreaPosition, interior: Rect) -> bool {
    side.inset && side.size > 0 ==> inset_fits(interior, pos, side.size as int)
}

/// True when `v` is a pixel coordinate.
fn coord_in_range(v: i64) -> (ok: bool)
    ensures
        ok == is_coord(v as int),
{
    -0x8000_0000 <= v && v <= 0x7fff_ffff
}

/// True when the label area of that side, if it is inset, has a pixel
/// coordinate for its inner edge.
pub fn side_fits(side: LabelAreaSpec, pos: LabelAreaPosition, interior: &Rect) -> (ok: bool)
    ensures
        ok == spec_side_fits(side, pos, *interior),
{
    if side.inset && side.size > 0 {
        let size: i64 = side.size as i64;
        match pos {
            LabelAreaPosition::Top => coord_in_range(interior.y0 as i64 + size),
            LabelAreaPosition::Bottom => coord_in_range(interior.y1 as i64 - size),
            LabelAreaPosition::Left => coord_in_range(interior.x0 as i64 + size),
            LabelAreaPosition::Right => coord_in_range(interior.x1 as i64 - size),
        }
    } else {
        true
    }
}

/// The label area of one side, given the grid cell beside the plot and the
/// plot region.
pub fn resolve(side: LabelAreaSpec, pos: LabelAreaPosition, cell: &Rect, interior: &Rect) -> (area: Option<Rect>)
    requires
        spec_side_fits(side, pos, *interior),
    ensures
        area == spec_resolve(side, pos, *cell, *interior),
        side.size == 0 ==> area is None,
        interior.wf() ==> (area matches Some(r) ==> r.wf()),
{
    if side.size == 0 {
        None
    } else if side.inset {
        if side.size > 0 {
            Some(inset_area(interior, pos, side.size))
        } else {
            None
        }
    } else {
        band(cell)
    }
}

/// What is asked for on each of the four sides.
#[derive(Clone, Copy, Debug, PartialEq, Eq, Structural)]
pub struct LabelAreas {
    pub top: LabelAreaSpec,
    pub bottom: LabelAreaSpec,
    pub left: LabelAreaSpec,
    pub right: LabelAreaSpec,
}

impl LabelAreas {
    /// No label area on any side: every size is 0 and nothing is inset.
    pub open spec fn spec_none() -> LabelAreas {
        let side = LabelAreaSpec { size: 0, inset: false };
        LabelAreas { top: side, bottom: side, left: side, right: side }
    }

    /// What is asked for on side `pos`.
    pub open spec fn spec_get(self, pos: LabelAreaPosition) -> LabelAreaSpec {
        match pos {
            LabelAreaPosition::Top => self.top,
            LabelAreaPosition::Bottom => self.bottom,
            LabelAreaPosition::Left => self.left,
            LabelAreaPosition::Right => self.right,
        }
    }

    /// These label areas with side `pos` replaced by `spec`.
    pub open spec fn spec_with(self, pos: LabelAreaPosition, spec: LabelAreaSpec) -> LabelAreas {
        match pos {
            LabelAreaPosition::Top => LabelAreas { top: spec, ..self },
            LabelAreaPosition::Bottom => LabelAreas { bottom: spec, ..self },
            LabelAreaPosition::Left => LabelAreas { left: spec, ..self },
            LabelAreaPosition::Right => LabelAreas { right: spec, ..self },
        }
    }

    /// The two breakpoints along `x`, as offsets from the left edge of
    /// `canvas`: where the plot starts and where it ends.
    pub open spec fn x_breaks(self, canvas: Rect) -> (int, int) {
        (
            self.left.spec_split_point(LabelAreaPosition::Left),
            canvas.width() + self.right.spec_split_point(LabelAreaPosition::Right),
        )
    }

    /// The two breakpoints along `y`, as offsets from the top edge of
    /// `canvas`: where the plot starts and where it ends.
    pub open spec fn y_breaks(self, canvas: Rect) -> (int, int) {
        (
            self.top.spec_split_point(LabelAreaPosition::Top),
            canvas.height() + self.bottom.spec_split_point(LabelAreaPosition::Bottom),
        )
    }

    /// The plot region: the central cell of the grid.
    pub open spec fn interior(self, canvas: Rect) -> Rect {
        canvas.grid_cell(1, 1, self.x_breaks(canvas), self.y_breaks(canvas))
    }

    /// The grid cell that borders the plot on side `pos`.
    pub open spec fn edge_cell(self, canvas: Rect, pos: LabelAreaPosition) -> Rect {
        let (row, col) = pos.spec_grid_cell();
        canvas.grid_cell(row, col, self.x_breaks(canvas), self.y_breaks(canvas))
    }

    /// The label area on side `pos` of the plot on `canvas`.
    pub open spec fn label_area(self, canvas: Rect, pos: LabelAreaPosition) -> Option<Rect> {
        spec_resolve(self.spec_get(pos), pos, self.edge_cell(canvas, pos), self.interior(canvas))
    }

    /// The plot region and the four label areas on `canvas`.
    pub open spec fn spec_layout(self, canvas: Rect) -> LayoutResult {
        LayoutResult {
            interior: self.interior(canvas),
            top: self.label_area(canvas, LabelAreaPosition::Top),
            bottom: self.label_area(canvas, LabelAreaPosition::Bottom),
            left: self.label_area(canvas, LabelAreaPosition::Left),
            right: self.label_area(canvas, LabelAreaPosition::Right),
        }
    }

    /// True when every edge of the layout on `canvas` is a pixel coordinate:
    /// the grid lines, and the inner edge of each inset label area.
    pub open spec fn spec_fits(self, canvas: Rect) -> bool {
        &&& canvas.breakpoints_fit(self.x_breaks(canvas), self.y_breaks(canvas))
        &&& forall|pos: LabelAreaPosition| #[trigger]
            spec_side_fits(self.spec_get(pos), pos, self.interior(canvas))
    }

    /// No label area on any side.
    pub fn none() -> (labels: LabelAreas)
        ensures
            labels == LabelAreas::spec_none(),
    {
        let side = LabelAreaSpec { size: 0, inset: false };
        LabelAreas { top: side, bottom: side, left: side, right: side }
    }

    /// What is asked for on side `pos`.
    pub fn get(&self, pos: LabelAreaPosition) -> (side: LabelAreaSpec)
        ensures
            side == self.spec_get(pos),
    {
        match pos {
            LabelAreaPosition::Top => self.top,
            LabelAreaPosition::Bottom => self.bottom,
            LabelAreaPosition::Left => self.left,
            LabelAreaPosition::Right => self.right,
        }
    }

    /// Replaces what is asked for on side `pos`.
    pub fn set(&mut self, pos: LabelAreaPosition, side: LabelAreaSpec)
        ensures
            *final(self) == old(self).spec_with(pos, side),
    {
        match pos {
            LabelAreaPosition::Top => self.top = side,
            LabelAreaPosition::Bottom => self.bottom = side,
            LabelAreaPosition::Left => self.left = side,
            LabelAreaPosition::Right => self.right = side,
        }
    }

    /// The breakpoints along `x` and along `y` at which `canvas` is split, as
    /// offsets from its top left corner.
    pub fn breakpoints(&self, canvas: &Rect) -> (breaks: ((i64, i64), (i64, i64)))
        ensures
            breaks.0.0 == self.x_breaks(*canvas).0,
            breaks.0.1 == self.x_breaks(*canvas).1,
            breaks.1.0 == self.y_breaks(*canvas).0,
            breaks.1.1 == self.y_breaks(*canvas).1,
    {
        let w: i64 = canvas.x1 as i64 - canvas.x0 as i64;
        let h: i64 = canvas.y1 as i64 - canvas.y0 as i64;
        let top: i64 = self.top.split_point(LabelAreaPosition::Top);
        let bottom: i64 = h + self.bottom.split_point(LabelAreaPosition::Bottom);
        let left: i64 = self.left.split_point(LabelAreaPosition::Left);
        let right: i64 = w + self.right.split_point(LabelAreaPosition::Right);
        ((left, right), (top, bottom))
    }

    /// True when every edge of the layout on `canvas` is a pixel coordinate.
    pub fn fits(&self, canvas: &Rect) -> (ok: bool)
        ensures
            ok == self.spec_fits(*canvas),
    {
        let (xb, yb) = self.breakpoints(canvas);
        if !(coord_in_range(canvas.x0 as i64 + xb.0) && coord_in_range(canvas.x0 as i64 + xb.1)
            && coord_in_range(canvas.y0 as i64 + yb.0) && coord_in_range(canvas.y0 as i64 + yb.1)) {
            return false;
        }
        let cells = canvas.split_by_breakpoints(xb, yb);
        let interior = cells[4];
        assert(interior == self.interior(*canvas));
        let ok = side_fits(self.top, LabelAreaPosition::Top, &interior) && side_fits(
            self.bottom,
            LabelAreaPosition::Bottom,
            &interior,
        ) && side_fits(self.left, LabelAreaPosition::Left, &interior) && side_fits(
            self.right,
            LabelAreaPosition::Right,
            &interior,
        );
        proof {
            if !ok {
                assert(self.spec_get(LabelAreaPosition::Top) == self.top);
                assert(self.spec_get(LabelAreaPosition::Bottom) == self.bottom);
                assert(self.spec_get(LabelAreaPosition::Left) == self.left);
                assert(self.spec_get(LabelAreaPosition::Right) == self.right);
            }
        }
        ok
    }

    /// Splits `canvas` into the plot region and the label areas.
    pub fn layout(&self, canvas: &Rect) -> (result: LayoutResult)
        requires
            self.spec_fits(*canvas),
        ensures
            result == self.spec_layout(*canvas),
            forall|pos: LabelAreaPosition| (#[trigger] self.spec_get(pos)).size == 0 ==> result.label(pos) is None,
            result.interior.wf(),
            forall|pos: LabelAreaPosition| #[trigger] result.label(pos) matches Some(r) ==> r.wf(),
    {
        let (xb, yb) = self.breakpoints(canvas);
        let cells = canvas.split_by_breakpoints(xb, yb);
        let interior = cells[4];
        assert(interior == self.interior(*canvas));
        assert(spec_side_fits(self.spec_get(LabelAreaPosition::Top), LabelAreaPosition::Top, interior));
        assert(spec_side_fits(self.spec_get(LabelAreaPosition::Bottom), LabelAreaPosition::Bottom, interior));
        assert(spec_side_fits(self.spec_get(LabelAreaPosition::Left), LabelAreaPosition::Left, interior));
        assert(spec_side_fits(self.spec_get(LabelAreaPosition::Right), LabelAreaPosition::Right, interior));
        LayoutResult {
            interior,
            top: resolve(self.top, LabelAreaPosition::Top, &cells[LabelAreaPosition::Top.grid_index()], &interior),
            bottom: resolve(
                self.bottom,
                LabelAreaPosition::Bottom,
                &cells[LabelAreaPosition::Bottom.grid_index()],
                &interior,
            ),
            left: resolve(self.left, LabelAreaPosition::Left, &cells[LabelAreaPosition::Left.grid_index()], &interior),
            right: resolve(
                self.right,
                LabelAreaPosition::Right,
                &cells[LabelAreaPosition::Right.grid_index()],
                &interior,
            ),
        }
    }
}

} // verus!
