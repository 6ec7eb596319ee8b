//! A colorer that lays a two-colour gradient over the grid as a staircase.
//!
//! Saturation and value move from their start to their end in a straight
//! line. The hue moves round the colour wheel, and it takes the shorter of
//! the two ways round.

use vstd::prelude::*;
use crate::colors::Hsv;
use crate::grid::CellIndex;
use crate::units::{
    lemma_lerp_between, lerp, lerp_i32, lerp_i64, remainder, saturate, saturate_i32, trunc_div,
    LERP_LIMIT, UNIT,
};
use super::grid_colorer::{GridColorer, GridParams};

verus! {

/// One channel of the staircase gradient. The row picks where the row's own
/// gradient starts: at the point `row / rows` of the way from `start` to
/// `end`. That gradient spans as much as the base gradient does, and the
/// column picks the point `col / cols` on it.
pub open spec fn staircase(start: int, end: int, row: int, rows: int, col: int, cols: int) -> int {
    let row_start = lerp(start, end, row, rows);
    let row_end = row_start + (end - start);
    lerp(row_start, row_end, col, cols)
}

/// The shorter way round the colour wheel from the hue `from` to the hue
/// `to`: their difference, brought to more than minus half a turn and to no
/// more than half a turn by adding or taking away whole turns.
pub open spec fn short_way(from: int, to: int) -> int {
    let ahead = (to - from) % (UNIT as int);
    if ahead > UNIT / 2 {
        ahead - UNIT
    } else {
        ahead
    }
}

/// The hue `num / den` of the way from `from` to `to` along the shorter way
/// round the colour wheel, rounded toward `from`. At and beyond the ends of
/// the way, the hue is `from` and `to` themselves.
pub open spec fn hue_lerp(from: int, to: int, num: int, den: int) -> int {
    if den <= 0 || num <= 0 {
        from
    } else if num >= den {
        to
    } else {
        from + trunc_div(short_way(from, to) * num, den)
    }
}

/// The hue channel of the staircase gradient: like `staircase`, but each of
/// the two gradients takes the shorter way round the colour wheel.
pub open spec fn hue_staircase(
    start: int,
    end: int,
    row: int,
    rows: int,
    col: int,
    cols: int,
) -> int {
    let row_start = hue_lerp(start, end, row, rows);
    let row_end = row_start + (end - start);
    hue_lerp(row_start, row_end, col, cols)
}

/// The colour that the staircase gradient from `start` to `end` gives to the
/// cell at `index` of a grid with `total` rows and columns. A channel that
/// leaves the range of an `i32` stops at the end of that range.
pub open spec fn interpolated_color(
    start: Hsv,
    end: Hsv,
    index: CellIndex,
    total: CellIndex,
) -> Hsv {
    Hsv {
        hue: saturate(
            hue_staircase(
                start.hue as int,
                end.hue as int,
                index.row as int,
                total.row as int,
                index.col as int,
                total.col as int,
            ),
        ) as i32,
        saturation: saturate(
            staircase(
                start.saturation as int,
                end.saturation as int,
                index.row as int,
                total.row as int,
                index.col as int,
                total.col as int,
            ),
        ) as i32,
        value: saturate(
            staircase(
                start.value as int,
                end.value as int,
                index.row as int,
                total.row as int,
                index.col as int,
                total.col as int,
            ),
        ) as i32,
    }
}

/// InterpolatedColorer colours the grid's first row with the gradient it was
/// given. Every later row starts with the colour that its row index points to
/// on that gradient, and ends as far from its start as the gradient's end is
/// from the gradient's start.
pub struct InterpolatedColorer {
    start: Hsv,
    end: Hsv,
}

fn staircase_channel(start: i32, end: i32, index: &CellIndex, total: &CellIndex) -> (r: i32)
    ensures
        r == saturate(
            staircase(
                start as int,
                end as int,
                index.row as int,
                total.row as int,
                index.col as int,
                total.col as int,
            ),
        ),
{
    // The start of this row's gradient is picked on the base gradient.
    let row_start: i32 = lerp_i32(start, end, index.row, total.row);
    proof {
        lemma_lerp_between(start as int, end as int, index.row as int, total.row as int);
    }
    // Keep the difference between the new start and end the same by using the
    // base gradient's difference.
    let difference: i64 = end as i64 - start as i64;
    let row_end: i64 = row_start as i64 + difference;
    saturate_i32(lerp_i64(row_start as i64, row_end, index.col, total.col))
}

/// The shorter way round the colour wheel is at most half a turn long.
pub proof fn lemma_short_way(from: int, to: int)
    ensures
        -(UNIT / 2) < short_way(from, to) <= UNIT / 2,
        (from + short_way(from, to) - to) % (UNIT as int) == 0,
{
    let turn = UNIT as int;
    vstd::arithmetic::div_mod::lemma_mod_bound(to - from, turn);
    vstd::arithmetic::div_mod::lemma_fundamental_div_mod(to - from, turn);
    let wholes = (to - from) / turn;
    let ahead = (to - from) % turn;
    if ahead > UNIT / 2 {
        assert(from + (ahead - turn) - to == turn * (-wholes - 1) + 0) by (nonlinear_arith)
            requires
                to - from == turn * wholes + ahead,
        ;
        vstd::arithmetic::div_mod::lemma_fundamental_div_mod_converse(
            from + (ahead - turn) - to,
            turn,
            -wholes - 1,
            0,
        );
    } else {
        assert(from + ahead - to == turn * (-wholes) + 0) by (nonlinear_arith)
            requires
                to - from == turn * wholes + ahead,
        ;
        vstd::arithmetic::div_mod::lemma_fundamental_div_mod_converse(
            from + ahead - to,
            turn,
            -wholes,
            0,
        );
    }
}

fn hue_lerp_i64(from: i64, to: i64, num: usize, den: usize) -> (r: i64)
    requires
        -LERP_LIMIT + UNIT <= from <= LERP_LIMIT - UNIT,
        -LERP_LIMIT + UNIT <= to <= LERP_LIMIT - UNIT,
    ensures
        r == hue_lerp(from as int, to as int, num as int, den as int),
        -LERP_LIMIT <= r <= LERP_LIMIT,
{
    if den == 0 || num == 0 {
        return from;
    }
    if num >= den {
        return to;
    }
    let ahead: i64 = remainder(to - from, UNIT as i64);
    let turn: i64 = if ahead > (UNIT / 2) as i64 {
        ahead - UNIT as i64
    } else {
        ahead
    };
    proof {
        lemma_lerp_between(from as int, from + turn, num as int, den as int);
    }
    lerp_i64(from, from + turn, num, den)
}

fn hue_staircase_channel(start: i32, end: i32, index: &CellIndex, total: &CellIndex) -> (r: i32)
    ensures
        r == saturate(
            hue_staircase(
                start as int,
                end as int,
                index.row as int,
                total.row as int,
                index.col as int,
                total.col as int,
            ),
        ),
{
    // The start of this row's gradient is picked on the base gradient.
    let row_start: i64 = hue_lerp_i64(start as i64, end as i64, index.row, total.row);
    proof {
        lemma_short_way(start as int, end as int);
        lemma_lerp_between(
            start as int,
            start + short_way(start as int, end as int),
            index.row as int,
            total.row as int,
        );
    }
    // Keep the difference between the new start and end the same by using the
    // base gradient's difference.
    let difference: i64 = end as i64 - start as i64;
    let row_end: i64 = row_start + difference;
    saturate_i32(hue_lerp_i64(row_start, row_end, index.col, total.col))
}

impl InterpolatedColorer {
    /// The colour at which the base gradient starts.
    pub closed spec fn start(&self) -> Hsv {
        self.start
    }

    /// The colour at which the base gradient ends.
    pub closed spec fn end(&self) -> Hsv {
        self.end
    }

    /// A colorer over the gradient from `color_range.0` to `color_range.1`.
    pub fn new(color_range: (Hsv, Hsv)) -> (colorer: Self)
        ensures
            colorer.start() == color_range.0,
            colorer.end() == color_range.1,
    {
        InterpolatedColorer { start: color_range.0, end: color_range.1 }
    }
}

impl GridColorer for InterpolatedColorer {
    open spec fn may_color(&self, params: GridParams, color: Hsv) -> bool {
        color == interpolated_color(
            self.start(),
            self.end(),
            params.cell.index,
            *params.total_num_cells,
        )
    }

    open spec fn steps_to(&self, next: &Self) -> bool {
        next == self
    }

    fn color(&self, params: GridParams) -> (color: Hsv) {
        let index = &params.cell.index;
        let total = params.total_num_cells;
        Hsv {
            hue: hue_staircase_channel(self.start.hue, self.end.hue, index, total),
            saturation: staircase_channel(self.start.saturation, self.end.saturation, index, total),
            value: staircase_channel(self.start.value, self.end.value, index, total),
        }
    }

    fn update(&mut self) {
    }
}

/// The cell in the first row and the first column gets the colour at which
/// the gradient starts.
pub proof fn lemma_interpolated_first_cell(start: Hsv, end: Hsv, total: CellIndex)
    ensures
        interpolated_color(start, end, CellIndex { row: 0, col: 0 }, total) == start,
{
}

/// In the first row every channel lies between the two ends of the gradient,
/// and the last column comes within one column's share of the gradient's end:
/// what is missing is at most the `cols`-th part of the span, rounded up.
pub proof fn lemma_interpolated_first_row(start: int, end: int, rows: int, col: int, cols: int)
    requires
        0 <= col < cols,
    ensures
        start <= end ==> start <= staircase(start, end, 0, rows, col, cols) <= end,
        end <= start ==> end <= staircase(start, end, 0, rows, col, cols) <= start,
        staircase(start, end, 0, rows, cols, cols) == end,
        col == cols - 1 && start <= end ==> (end - staircase(start, end, 0, rows, col, cols)) * cols
            < (end - start) + cols,
        col == cols - 1 && end <= start ==> (staircase(start, end, 0, rows, col, cols) - end) * cols
            < (start - end) + cols,
{
    lemma_lerp_between(start, start + (end - start), col, cols);
    let here = staircase(start, end, 0, rows, col, cols);
    if col == cols - 1 {
        if col == 0 {
            assert(here == start);
            assert((end - start) * 1 == end - start);
            assert((start - end) * 1 == start - end);
        } else {
            let span = end - start;
            assert(here == start + trunc_div(span * col, cols));
            if start <= end {
                lemma_last_step(span, cols);
                assert(here == start + (span * (cols - 1)) / cols);
                assert(end - here == span - (span * (cols - 1)) / cols);
            } else {
                lemma_last_step(-span, cols);
                assert(-(span * col) == (-span) * col) by (nonlinear_arith);
                if span * col >= 0 {
                    assert((-span) * col == 0);
                }
                assert(here == start - ((-span) * (cols - 1)) / cols);
                assert(here - end == (-span) - ((-span) * (cols - 1)) / cols);
            }
        }
    }
}

/// In the first row the hue runs along the shorter way round the colour
/// wheel: it is what a straight line from `start` to the hue that lies the
/// shorter way ahead of it gives, and that hue is `end`, but for whole
/// turns. One column past the last, the hue is `end` itself.
pub proof fn lemma_interpolated_first_row_hue(start: int, end: int, rows: int, col: int, cols: int)
    requires
        0 <= col < cols,
    ensures
        hue_staircase(start, end, 0, rows, col, cols) == staircase(
            start,
            start + short_way(start, end),
            0,
            rows,
            col,
            cols,
        ),
        -(UNIT / 2) < short_way(start, end) <= UNIT / 2,
        (start + short_way(start, end) - end) % (UNIT as int) == 0,
        hue_staircase(start, end, 0, rows, cols, cols) == end,
{
    lemma_short_way(start, end);
    lemma_short_way(start, start + (end - start));
}

/// Taking all but one of `cols` equal shares of a span leaves less than one
/// share and one unit.
proof fn lemma_last_step(span: int, cols: int)
    requires
        0 <= span,
        1 < cols,
    ensures
        0 <= span * (cols - 1),
        (span - (span * (cols - 1)) / cols) * cols < span + cols,
{
    let taken = (span * (cols - 1)) / cols;
    assert(0 <= span * (cols - 1)) by (nonlinear_arith)
        requires
            0 <= span,
            1 < cols,
    ;
    vstd::arithmetic::div_mod::lemma_fundamental_div_mod(span * (cols - 1), cols);
    vstd::arithmetic::div_mod::lemma_mod_pos_bound(span * (cols - 1), cols);
    assert((span - taken) * cols == span * cols - taken * cols) by (nonlinear_arith);
    assert(span * (cols - 1) == span * cols - span) by (nonlinear_arith);
    assert(cols * taken == taken * cols) by (nonlinear_arith);
}

} // verus!
