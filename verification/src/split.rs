//! Splitting a rectangle into a grid of three rows and three columns.
//!
//! On each axis the two edges of the rectangle and two breakpoints are put in
//! ascending order; neighbouring values bound the rows and the columns. A
//! breakpoint outside the rectangle therefore gives a cell outside it, and no
//! cell ever has a negative extent.

use crate::area::{is_coord, Rect};
use vstd::math::{max, min};
use vstd::prelude::*;

verus! {

/// The value at place `k` when `a`, `b`, `c` and `d` are put in ascending
/// order: place 0 holds the smallest and place 3 the largest.
pub open spec fn nth_of_four(k: int, a: int, b: int, c: int, d: int) -> int {
    let low = max(min(a, b), min(c, d));
    let high = min(max(a, b), max(c, d));
    if k <= 0 {
        min(min(a, b), min(c, d))
    } else if k == 1 {
        min(low, high)
    } else if k == 2 {
        max(low, high)
    } else {
        max(max(a, b), max(c, d))
    }
}

/// How often `v` occurs among `a`, `b`, `c` and `d`.
pub open spec fn count_of_four(v: int, a: int, b: int, c: int, d: int) -> int {
    (if a == v { 1int } else { 0 }) + (if b == v { 1int } else { 0 }) + (if c == v { 1int } else { 0 })
        + (if d == v { 1int } else { 0 })
}

/// The places 0 to 3 of `nth_of_four` ascend, and they hold each value as
/// often as it occurs among `a`, `b`, `c` and `d`.
pub proof fn lemma_nth_of_four_sorts(a: int, b: int, c: int, d: int)
    ensures
        nth_of_four(0, a, b, c, d) <= nth_of_four(1, a, b, c, d),
        nth_of_four(1, a, b, c, d) <= nth_of_four(2, a, b, c, d),
        nth_of_four(2, a, b, c, d) <= nth_of_four(3, a, b, c, d),
        forall|v: int|
            count_of_four(v, a, b, c, d) == #[trigger] count_of_four(
                v,
                nth_of_four(0, a, b, c, d),
                nth_of_four(1, a, b, c, d),
                nth_of_four(2, a, b, c, d),
                nth_of_four(3, a, b, c, d),
            ),
{
}

/// No other ascending arrangement holds each value as often as it occurs
/// among `a`, `b`, `c` and `d`.
pub proof fn lemma_nth_of_four_unique(a: int, b: int, c: int, d: int, p: int, q: int, r: int, s: int)
    requires
        p <= q <= r <= s,
        forall|v: int| count_of_four(v, a, b, c, d) == #[trigger] count_of_four(v, p, q, r, s),
    ensures
        p == nth_of_four(0, a, b, c, d),
        q == nth_of_four(1, a, b, c, d),
        r == nth_of_four(2, a, b, c, d),
        s == nth_of_four(3, a, b, c, d),
{
    assert(count_of_four(a, a, b, c, d) == count_of_four(a, p, q, r, s));
    assert(count_of_four(b, a, b, c, d) == count_of_four(b, p, q, r, s));
    assert(count_of_four(c, a, b, c, d) == count_of_four(c, p, q, r, s));
    assert(count_of_four(d, a, b, c, d) == count_of_four(d, p, q, r, s));
    assert(count_of_four(p, a, b, c, d) == count_of_four(p, p, q, r, s));
    assert(count_of_four(q, a, b, c, d) == count_of_four(q, p, q, r, s));
    assert(count_of_four(r, a, b, c, d) == count_of_four(r, p, q, r, s));
    assert(count_of_four(s, a, b, c, d) == count_of_four(s, p, q, r, s));
}

/// Puts four pixel coordinates in ascending order.
pub fn sort_four(a: i32, b: i32, c: i32, d: i32) -> (sorted: [i32; 4])
    ensures
        forall|k: int| 0 <= k < 4 ==> #[trigger] sorted[k] == nth_of_four(k, a as int, b as int, c as int, d as int),
{
    let lo_ab: i32 = if a <= b { a } else { b };
    let hi_ab: i32 = if a <= b { b } else { a };
    let lo_cd: i32 = if c <= d { c } else { d };
    let hi_cd: i32 = if c <= d { d } else { c };
    let lowest: i32 = if lo_ab <= lo_cd { lo_ab } else { lo_cd };
    let low: i32 = if lo_ab <= lo_cd { lo_cd } else { lo_ab };
    let high: i32 = if hi_ab <= hi_cd { hi_ab } else { hi_cd };
    let highest: i32 = if hi_ab <= hi_cd { hi_cd } else { hi_ab };
    let second: i32 = if low <= high { low } else { high };
    let third: i32 = if low <= high { high } else { low };
    [lowest, second, third, highest]
}

impl Rect {
    /// The vertical grid line at place `k`, counted from the left, for the
    /// breakpoints `breaks`, which are offsets from the left edge.
    pub open spec fn x_edge(self, k: int, breaks: (int, int)) -> int {
        nth_of_four(k, self.x0 as int, self.x1 as int, self.x0 + breaks.0, self.x0 + breaks.1)
    }

    /// The horizontal grid line at place `k`, counted from the top, for the
    /// breakpoints `breaks`, which are offsets from the top edge.
    pub open spec fn y_edge(self, k: int, breaks: (int, int)) -> int {
        nth_of_four(k, self.y0 as int, self.y1 as int, self.y0 + breaks.0, self.y0 + breaks.1)
    }

    /// True when every grid line is a pixel coordinate.
    pub open spec fn breakpoints_fit(self, x_breaks: (int, int), y_breaks: (int, int)) -> bool {
        &&& is_coord(self.x0 + x_breaks.0)
        &&& is_coord(self.x0 + x_breaks.1)
        &&& is_coord(self.y0 + y_breaks.0)
        &&& is_coord(self.y0 + y_breaks.1)
    }

    /// The cell in row `row` and column `col` of the grid, both counted from 0.
    pub open spec fn grid_cell(self, row: int, col: int, x_breaks: (int, int), y_breaks: (int, int)) -> Rect {
        Rect {
            x0: self.x_edge(col, x_breaks) as i32,
            y0: self.y_edge(row, y_breaks) as i32,
            x1: self.x_edge(col + 1, x_breaks) as i32,
            y1: self.y_edge(row + 1, y_breaks) as i32,
        }
    }

    /// Splits the rectangle into nine cells, row by row from the top and in
    /// each row from the left. The breakpoints are offsets from the top left
    /// corner; they need not be ordered nor lie within the rectangle.
    pub fn split_by_breakpoints(&self, x_breaks: (i64, i64), y_breaks: (i64, i64)) -> (cells: Vec<Rect>)
        requires
            self.breakpoints_fit((x_breaks.0 as int, x_breaks.1 as int), (y_breaks.0 as int, y_breaks.1 as int)),
        ensures
            cells.len() == 9,
            forall|row: int, col: int|
                0 <= row < 3 && 0 <= col < 3 ==> cells[3 * row + col] == #[trigger] self.grid_cell(
                    row,
                    col,
                    (x_breaks.0 as int, x_breaks.1 as int),
                    (y_breaks.0 as int, y_breaks.1 as int),
                ),
            forall|i: int| 0 <= i < 9 ==> #[trigger] cells[i].wf(),
    {
        let xs: [i32; 4] = sort_four(
            self.x0,
            self.x1,
            (self.x0 as i64 + x_breaks.0) as i32,
            (self.x0 as i64 + x_breaks.1) as i32,
        );
        let ys: [i32; 4] = sort_four(
            self.y0,
            self.y1,
            (self.y0 as i64 + y_breaks.0) as i32,
            (self.y0 as i64 + y_breaks.1) as i32,
        );
        let ghost xb = (x_breaks.0 as int, x_breaks.1 as int);
        let ghost yb = (y_breaks.0 as int, y_breaks.1 as int);
        proof {
            lemma_nth_of_four_sorts(self.x0 as int, self.x1 as int, self.x0 + xb.0, self.x0 + xb.1);
            lemma_nth_of_four_sorts(self.y0 as int, self.y1 as int, self.y0 + yb.0, self.y0 + yb.1);
        }
        let mut cells: Vec<Rect> = Vec::new();
        let mut row: usize = 0;
        while row < 3
            invariant
                row <= 3,
                cells.len() == 3 * row,
                forall|k: int| 0 <= k < 4 ==> #[trigger] xs[k] == self.x_edge(k, xb),
                forall|k: int| 0 <= k < 4 ==> #[trigger] ys[k] == self.y_edge(k, yb),
                xs[0] <= xs[1] <= xs[2] <= xs[3],
                ys[0] <= ys[1] <= ys[2] <= ys[3],
                forall|r: int, c: int|
                    0 <= r < row && 0 <= c < 3 ==> cells[3 * r + c] == #[trigger] self.grid_cell(r, c, xb, yb),
                forall|i: int| 0 <= i < cells.len() ==> #[trigger] cells[i].wf(),
            decreases 3 - row,
        {
            let mut col: usize = 0;
            while col < 3
                invariant
                    row < 3,
                    col <= 3,
                    cells.len() == 3 * row + col,
                    forall|k: int| 0 <= k < 4 ==> #[trigger] xs[k] == self.x_edge(k, xb),
                    forall|k: int| 0 <= k < 4 ==> #[trigger] ys[k] == self.y_edge(k, yb),
                    xs[0] <= xs[1] <= xs[2] <= xs[3],
                    ys[0] <= ys[1] <= ys[2] <= ys[3],
                    forall|r: int, c: int|
                        0 <= r < row && 0 <= c < 3 ==> cells[3 * r + c] == #[trigger] self.grid_cell(r, c, xb, yb),
                    forall|c: int| 0 <= c < col ==> cells[3 * row + c] == #[trigger] self.grid_cell(row as int, c, xb, yb),
                    forall|i: int| 0 <= i < cells.len() ==> #[trigger] cells[i].wf(),
                decreases 3 - col,
            {
                cells.push(Rect { x0: xs[col], y0: ys[row], x1: xs[col + 1], y1: ys[row + 1] });
                col = col + 1;
            }
            row = row + 1;
        }
        cells
    }
}

} // verus!
