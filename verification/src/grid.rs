//! A rectangle partitioned into a lattice of cells.
//!
//! Rows are counted from the top edge downwards and columns from the left edge
//! rightwards, so the cell with index `(0, 0)` sits in the top-left corner.
//! Every cell reaches from one edge of the lattice to the next, so the cells
//! always cover the rectangle exactly, without gaps and without overlaps.
//!
//! A grid is made in one of two ways. `Grid::new` takes the numbers of rows
//! and columns and divides the rectangle evenly among them: the edge after
//! `c` of `C` columns lies `c * w / C` units from the left edge, rounded
//! down, so that every cell is `w / C` units wide or one unit more.
//! `Grid::with_cell_size` takes the side of a square cell: there are then as
//! many rows and columns as it takes to cover the rectangle, and the cells of
//! the last row and the last column are cut off at its edge.

use vstd::prelude::*;
use vstd::arithmetic::div_mod::{
    lemma_div_is_ordered, lemma_div_multiples_vanish, lemma_div_pos_is_pos,
    lemma_fundamental_div_mod, lemma_fundamental_div_mod_converse, lemma_hoist_over_denominator,
    lemma_mod_pos_bound,
};
use vstd::arithmetic::mul::{
    lemma_mul_inequality, lemma_mul_is_associative, lemma_mul_is_commutative,
    lemma_mul_is_distributive_add, lemma_mul_is_distributive_add_other_way,
    lemma_mul_nonnegative,
};
use crate::geom::{Rect, Vec2};
use crate::units::{lemma_product_bound, trunc_div};

verus! {

/// A `(row, column)` position in a grid, or a pair of row and column counts.
#[derive(Debug, Default, Clone, Copy, Hash, PartialEq, Eq, Structural)]
pub struct CellIndex {
    pub row: usize,
    pub col: usize,
}

/// One block of a grid: its centre, its extents and its place in the lattice.
///
/// `xy` is the centre. When an extent is odd the centre is rounded toward the
/// left and the top edge, which is why `right` and `bottom` are measured from
/// `left` and `top`.
#[derive(Debug, Clone, Copy, PartialEq, Eq, Structural)]
pub struct Cell {
    pub xy: Vec2,
    pub wh: Vec2,
    pub index: CellIndex,
}

impl Cell {
    pub fn new(wh: Vec2, xy: Vec2, index: CellIndex) -> (cell: Cell)
        ensures
            cell == (Cell { xy, wh, index }),
    {
        Cell { wh, xy, index }
    }

    pub open spec fn spec_left(&self) -> int {
        self.xy.x - trunc_div(self.wh.x as int, 2)
    }

    pub open spec fn spec_right(&self) -> int {
        self.spec_left() + self.wh.x
    }

    pub open spec fn spec_top(&self) -> int {
        self.xy.y + trunc_div(self.wh.y as int, 2)
    }

    pub open spec fn spec_bottom(&self) -> int {
        self.spec_top() - self.wh.y
    }

    /// The x coordinate of the left edge.
    pub fn left(&self) -> (r: i64)
        ensures
            r == self.spec_left(),
    {
        self.xy.x as i64 - (self.wh.x / 2) as i64
    }

    /// The y coordinate of the bottom edge.
    pub fn bottom(&self) -> (r: i64)
        ensures
            r == self.spec_bottom(),
    {
        self.top() - self.wh.y as i64
    }

    /// The y coordinate of the top edge.
    pub fn top(&self) -> (r: i64)
        ensures
            r == self.spec_top(),
    {
        self.xy.y as i64 + (self.wh.y / 2) as i64
    }

    /// The x coordinate of the right edge.
    pub fn right(&self) -> (r: i64)
        ensures
            r == self.spec_right(),
    {
        self.left() + self.wh.x as i64
    }
}

/// Why a grid could not be built.
#[derive(Debug, Clone, Copy, PartialEq, Eq, Structural)]
pub enum GridError {
    /// The grid would have no rows.
    NoRows,
    /// The grid would have no columns.
    NoColumns,
    /// The requested side length of the cells was not positive.
    NoCellSize,
}

/// The smaller of two integers.
pub open spec fn least(a: int, b: int) -> int {
    if a <= b {
        a
    } else {
        b
    }
}

/// How the edges of a lattice are placed.
#[derive(Debug, Clone, Copy, PartialEq, Eq, Structural)]
pub enum Sizing {
    /// The rectangle is divided evenly among the rows and the columns.
    Divided,
    /// The cells are squares of the given side, but for those of the last
    /// row and the last column, which end at the edge of the rectangle.
    Sized(i32),
}

/// The numbers of rows and columns that it takes to cover `rect` with square
/// cells of side `side`: the height and the width divided by the side, both
/// rounded up.
pub open spec fn sized_counts(rect: Rect, side: int) -> CellIndex {
    CellIndex {
        row: ((rect.spec_h() + side - 1) / side) as usize,
        col: ((rect.spec_w() + side - 1) / side) as usize,
    }
}

/// How far the `k`-th edge of a lattice lies from the edge at which the
/// lattice starts, where the lattice has `count` cells along an extent of
/// `extent` units. An even division puts it `k * extent / count` units away,
/// rounded down; cells of a given side put it `k` sides away, but no further
/// than the extent reaches.
pub open spec fn edge_offset(extent: int, count: int, sizing: Sizing, k: int) -> int {
    match sizing {
        Sizing::Divided => (k * extent) / count,
        Sizing::Sized(side) => least(side * k, extent),
    }
}

/// The x coordinate of the edge between column `col - 1` and column `col`:
/// the left edge of column `col` and the right edge of the one before it.
pub open spec fn column_edge(rect: Rect, num_cells: CellIndex, sizing: Sizing, col: int) -> int {
    rect.spec_left() + edge_offset(rect.spec_w(), num_cells.col as int, sizing, col)
}

/// The y coordinate of the edge between row `row - 1` and row `row`: the top
/// edge of row `row` and the bottom edge of the one above it.
pub open spec fn row_edge(rect: Rect, num_cells: CellIndex, sizing: Sizing, row: int) -> int {
    rect.spec_top() - edge_offset(rect.spec_h(), num_cells.row as int, sizing, row)
}

/// Whether `num_cells` rows and columns placed by `sizing` make a lattice
/// over `rect`: there is at least one row and one column, and where the
/// cells have a given side, the side is positive and the counts are those
/// that it takes to cover the rectangle.
pub open spec fn lattice_fits(rect: Rect, num_cells: CellIndex, sizing: Sizing) -> bool {
    &&& num_cells.row > 0
    &&& num_cells.col > 0
    &&& sizing matches Sizing::Sized(side) ==> side > 0 && num_cells == sized_counts(
        rect,
        side as int,
    )
}

/// The cell at `(row, col)` of a lattice over `rect`: it reaches from one
/// column edge to the next and from one row edge to the next.
pub open spec fn cell_at(
    rect: Rect,
    num_cells: CellIndex,
    sizing: Sizing,
    row: int,
    col: int,
) -> Cell {
    let left = column_edge(rect, num_cells, sizing, col);
    let right = column_edge(rect, num_cells, sizing, col + 1);
    let top = row_edge(rect, num_cells, sizing, row);
    let bottom = row_edge(rect, num_cells, sizing, row + 1);
    Cell {
        xy: Vec2 { x: (left + (right - left) / 2) as i32, y: (top - (top - bottom) / 2) as i32 },
        wh: Vec2 { x: (right - left) as i32, y: (top - bottom) as i32 },
        index: CellIndex { row: row as usize, col: col as usize },
    }
}

/// All the cells of a grid, row by row.
pub open spec fn grid_cells(rect: Rect, num_cells: CellIndex, sizing: Sizing) -> Seq<Seq<Cell>> {
    Seq::new(
        num_cells.row as nat,
        |row: int|
            Seq::new(num_cells.col as nat, |col: int| cell_at(rect, num_cells, sizing, row, col)),
    )
}

/// The cells of a grid in the order a row-major traversal visits them.
pub open spec fn row_major_cells(rect: Rect, num_cells: CellIndex, sizing: Sizing) -> Seq<Cell> {
    Seq::new(
        (num_cells.row * num_cells.col) as nat,
        |k: int|
            cell_at(
                rect,
                num_cells,
                sizing,
                k / (num_cells.col as int),
                k % (num_cells.col as int),
            ),
    )
}

/// The number of parts of `side` units that it takes to cover `extent` is
/// zero for an empty extent only; all parts but the last lie inside the
/// extent, and all of them together cover it.
proof fn lemma_sized_extent(extent: int, side: int)
    requires
        0 <= extent,
        0 < side,
    ensures
        0 <= (extent + side - 1) / side <= extent,
        (extent + side - 1) / side == 0 <==> extent == 0,
        extent > 0 ==> ((extent + side - 1) / side - 1) * side < extent,
        ((extent + side - 1) / side) * side >= extent,
{
    let count = (extent + side - 1) / side;
    lemma_div_pos_is_pos(extent + side - 1, side);
    lemma_fundamental_div_mod(extent + side - 1, side);
    lemma_mod_pos_bound(extent + side - 1, side);
    lemma_mul_is_commutative(side, count);
    lemma_mul_is_distributive_add_other_way(side, count - 1, 1);
    assert((count - 1) * side < extent);
    assert(count * side >= extent);
    if count >= 1 {
        lemma_mul_inequality(1, count, side);
    }
    if count > extent {
        lemma_mul_inequality(extent, count - 1, side);
        lemma_mul_inequality(1, side, extent);
        lemma_mul_is_commutative(side, extent);
    }
}

/// Whether `sizing` can place `count` cells along `extent` units.
pub open spec fn sizing_fits(extent: int, count: int, sizing: Sizing) -> bool {
    &&& 0 <= extent
    &&& 0 < count
    &&& sizing matches Sizing::Sized(side) ==> side > 0 && side * count >= extent
}

/// The edges of a lattice come in order: a later edge lies no nearer to the
/// start than an earlier one, the first edge lies at the start, and the last
/// one at the end of the extent.
pub proof fn lemma_edge_offsets(extent: int, count: int, sizing: Sizing, k: int, j: int)
    requires
        sizing_fits(extent, count, sizing),
        0 <= k <= j <= count,
    ensures
        0 <= edge_offset(extent, count, sizing, k) <= edge_offset(extent, count, sizing, j)
            <= extent,
        edge_offset(extent, count, sizing, 0) == 0,
        edge_offset(extent, count, sizing, count) == extent,
{
    match sizing {
        Sizing::Divided => {
            lemma_mul_nonnegative(k, extent);
            lemma_mul_inequality(k, j, extent);
            lemma_mul_inequality(j, count, extent);
            lemma_div_pos_is_pos(k * extent, count);
            lemma_div_is_ordered(k * extent, j * extent, count);
            lemma_div_is_ordered(j * extent, count * extent, count);
            lemma_div_multiples_vanish(extent, count);
            assert(0 * extent == 0);
            assert(0int / count == 0) by {
                vstd::arithmetic::div_mod::lemma_div_basics_1(count);
            }
        },
        Sizing::Sized(side) => {
            let wide = side as int;
            lemma_mul_nonnegative(wide, k);
            lemma_mul_inequality(k, j, wide);
            lemma_mul_is_commutative(k, wide);
            lemma_mul_is_commutative(j, wide);
            assert(wide * 0 == 0);
        },
    }
}

/// Where an even division puts an edge: at the real place `k * extent /
/// count`, rounded down. So every edge lies less than one unit before its
/// real place, and a cell is as wide as the extent divided by the count,
/// rounded down, or one unit wider. Where the count divides the extent, the
/// edges are on their places and the cells are all alike.
pub proof fn lemma_divided_edges(extent: int, count: int, k: int)
    requires
        0 <= extent,
        0 < count,
        0 <= k < count,
    ensures
        count * edge_offset(extent, count, Sizing::Divided, k) <= k * extent,
        k * extent < count * (edge_offset(extent, count, Sizing::Divided, k) + 1),
        extent / count <= edge_offset(extent, count, Sizing::Divided, k + 1) - edge_offset(
            extent,
            count,
            Sizing::Divided,
            k,
        ) <= extent / count + 1,
        extent % count == 0 ==> edge_offset(extent, count, Sizing::Divided, k) == k * (extent
            / count),
        extent % count == 0 ==> edge_offset(extent, count, Sizing::Divided, k + 1)
            - edge_offset(extent, count, Sizing::Divided, k) == extent / count,
{
    let near = (k * extent) / count;
    let far = ((k + 1) * extent) / count;
    let share = extent / count;
    let rest = extent % count;
    lemma_mul_nonnegative(k, extent);
    lemma_fundamental_div_mod(k * extent, count);
    lemma_mod_pos_bound(k * extent, count);
    lemma_mul_is_distributive_add(count, near, 1);
    lemma_fundamental_div_mod(extent, count);
    lemma_mod_pos_bound(extent, count);
    lemma_div_pos_is_pos(extent, count);
    // The far edge lies one share and the rest further on.
    lemma_mul_is_distributive_add_other_way(extent, k, 1);
    assert((k + 1) * extent == k * extent + extent);
    lemma_mul_is_commutative(count, share);
    assert(k * extent + extent == k * extent + share * count + rest);
    lemma_hoist_over_denominator(k * extent, share, count as nat);
    lemma_hoist_over_denominator(k * extent, share + 1, count as nat);
    lemma_mul_is_distributive_add_other_way(count, share, 1);
    lemma_div_is_ordered(k * extent + share * count, (k + 1) * extent, count);
    lemma_div_is_ordered((k + 1) * extent, k * extent + (share + 1) * count, count);
    if rest == 0 {
        lemma_divided_multiple(extent, count, k);
        lemma_divided_multiple(extent, count, k + 1);
        lemma_mul_is_distributive_add_other_way(share, k, 1);
    }
}

/// Where the count divides the extent, an even division puts the `k`-th edge
/// `k` whole shares away.
proof fn lemma_divided_multiple(extent: int, count: int, k: int)
    requires
        0 <= extent,
        0 < count,
        0 <= k,
        extent % count == 0,
    ensures
        (k * extent) / count == k * (extent / count),
{
    let share = extent / count;
    lemma_fundamental_div_mod(extent, count);
    // k * extent == count * (k * share)
    lemma_mul_is_associative(k, count, share);
    lemma_mul_is_commutative(k, count);
    lemma_mul_is_associative(count, k, share);
    assert(k * extent == count * (k * share));
    lemma_div_multiples_vanish(k * share, count);
}

/// The edges of a lattice that fits: every column edge lies between the
/// left and the right edge of the rectangle and every row edge between its
/// bottom and its top, later edges lie further right and further down, and
/// the first and the last edges are the edges of the rectangle.
pub proof fn lemma_lattice_edges(
    rect: Rect,
    num_cells: CellIndex,
    sizing: Sizing,
    row: int,
    col: int,
)
    requires
        rect.wf(),
        lattice_fits(rect, num_cells, sizing),
        0 <= row < num_cells.row,
        0 <= col < num_cells.col,
    ensures
        sizing_fits(rect.spec_w(), num_cells.col as int, sizing),
        sizing_fits(rect.spec_h(), num_cells.row as int, sizing),
        rect.spec_left() <= column_edge(rect, num_cells, sizing, col) <= column_edge(
            rect,
            num_cells,
            sizing,
            col + 1,
        ) <= rect.spec_right(),
        rect.spec_bottom() <= row_edge(rect, num_cells, sizing, row + 1) <= row_edge(
            rect,
            num_cells,
            sizing,
            row,
        ) <= rect.spec_top(),
        column_edge(rect, num_cells, sizing, 0) == rect.spec_left(),
        column_edge(rect, num_cells, sizing, num_cells.col as int) == rect.spec_right(),
        row_edge(rect, num_cells, sizing, 0) == rect.spec_top(),
        row_edge(rect, num_cells, sizing, num_cells.row as int) == rect.spec_bottom(),
{
    rect.lemma_wf_edges();
    match sizing {
        Sizing::Divided => {},
        Sizing::Sized(side) => {
            lemma_sized_extent(rect.spec_w(), side as int);
            lemma_sized_extent(rect.spec_h(), side as int);
            lemma_mul_is_commutative(side as int, num_cells.col as int);
            lemma_mul_is_commutative(side as int, num_cells.row as int);
        },
    }
    lemma_edge_offsets(rect.spec_w(), num_cells.col as int, sizing, col, col + 1);
    lemma_edge_offsets(rect.spec_h(), num_cells.row as int, sizing, row, row + 1);
}

/// The number of parts of `side` units that it takes to cover `extent`.
fn count_parts(extent: i32, side: i32) -> (r: usize)
    requires
        extent >= 0,
        side > 0,
    ensures
        r == (extent + side - 1) / (side as int),
{
    proof {
        lemma_sized_extent(extent as int, side as int);
    }
    ((extent as i64 + side as i64 - 1) / side as i64) as usize
}

/// How far the `k`-th of the edges of `count` cells lies from the start of
/// `extent`.
fn offset_of_edge(extent: i32, count: usize, sizing: Sizing, k: usize) -> (r: i32)
    requires
        sizing_fits(extent as int, count as int, sizing),
        k <= count,
    ensures
        r == edge_offset(extent as int, count as int, sizing, k as int),
        0 <= r <= extent,
{
    proof {
        lemma_edge_offsets(extent as int, count as int, sizing, k as int, k as int);
    }
    let steps: u128 = k as u128;
    match sizing {
        Sizing::Divided => {
            let whole: u128 = extent as u128;
            assert(steps * whole <= 0x1_0000_0000_0000_0000 * 0x8000_0000) by (nonlinear_arith)
                requires
                    0 <= steps <= 0x1_0000_0000_0000_0000,
                    0 <= whole <= 0x8000_0000,
            ;
            ((steps * whole) / (count as u128)) as i32
        },
        Sizing::Sized(side) => {
            let wide: u128 = side as u128;
            assert(wide * steps <= 0x8000_0000 * 0x1_0000_0000_0000_0000) by (nonlinear_arith)
                requires
                    0 <= steps <= 0x1_0000_0000_0000_0000,
                    0 <= wide <= 0x8000_0000,
            ;
            let reach: u128 = wide * steps;
            if reach > extent as u128 {
                extent
            } else {
                reach as i32
            }
        },
    }
}

/// A rectangle together with the lattice of cells that partitions it.
///
/// A grid does not change once it is built, and building it costs as much as
/// it has cells: build it once and traverse it as often as needed.
pub struct Grid {
    cells: Vec<Vec<Cell>>,
    rect: Rect,
    sizing: Sizing,
}

impl View for Grid {
    type V = Seq<Seq<Cell>>;

    /// The stored cells, one sequence per row.
    closed spec fn view(&self) -> Seq<Seq<Cell>> {
        Seq::new(self.cells@.len(), |row: int| self.cells@[row]@)
    }
}

impl Grid {
    /// The rectangle that the grid partitions.
    pub closed spec fn spec_rect(&self) -> Rect {
        self.rect
    }

    /// How the edges of the lattice are placed.
    pub closed spec fn spec_sizing(&self) -> Sizing {
        self.sizing
    }

    /// The number of rows and columns.
    pub closed spec fn spec_num_cells(&self) -> CellIndex {
        CellIndex {
            row: self.cells@.len() as usize,
            col: if self.cells@.len() > 0 {
                self.cells@[0]@.len() as usize
            } else {
                0
            },
        }
    }

    /// The invariant of every grid: its lattice fits its rectangle, and it
    /// holds exactly the cells that rectangle, counts and sizing determine.
    #[verifier::type_invariant]
    pub closed spec fn wf(&self) -> bool {
        &&& self.rect.wf()
        &&& lattice_fits(self.rect, self.spec_num_cells(), self.sizing)
        &&& self@ == grid_cells(self.rect, self.spec_num_cells(), self.sizing)
    }

    /// The cells in row-major order.
    pub open spec fn row_major(&self) -> Seq<Cell> {
        row_major_cells(self.spec_rect(), self.spec_num_cells(), self.spec_sizing())
    }

    /// Whether the grid is the lattice of `num_cells` rows and columns over
    /// `rect` whose edges are placed by `sizing`.
    pub open spec fn is_lattice(&self, rect: Rect, num_cells: CellIndex, sizing: Sizing) -> bool {
        &&& self.wf()
        &&& self.spec_rect() == rect
        &&& self.spec_num_cells() == num_cells
        &&& self.spec_sizing() == sizing
        &&& self@ == grid_cells(rect, num_cells, sizing)
    }

    fn build(rect: Rect, num_cells: &CellIndex, sizing: Sizing) -> (grid: Grid)
        requires
            lattice_fits(rect, *num_cells, sizing),
        ensures
            grid.is_lattice(rect, *num_cells, sizing),
    {
        proof {
            use_type_invariant(&rect);
            lemma_lattice_edges(rect, *num_cells, sizing, 0, 0);
        }
        let ghost counts = *num_cells;
        let width: i32 = rect.w();
        let height: i32 = rect.h();

        // Anchor at the top left of the rectangle and build rightwards and
        // downwards, from one edge of the lattice to the next.
        let mut cells: Vec<Vec<Cell>> = Vec::new();
        let mut row: usize = 0;
        let mut top: i32 = rect.top();
        while row < num_cells.row
            invariant
                rect.wf(),
                counts == *num_cells,
                lattice_fits(rect, counts, sizing),
                sizing_fits(rect.spec_w(), counts.col as int, sizing),
                sizing_fits(rect.spec_h(), counts.row as int, sizing),
                width == rect.spec_w(),
                height == rect.spec_h(),
                row <= counts.row,
                cells@.len() == row,
                top == row_edge(rect, counts, sizing, row as int),
                forall|r: int|
                    0 <= r < row ==> #[trigger] cells@[r]@ == grid_cells(rect, counts, sizing)[r],
            decreases counts.row - row,
        {
            proof {
                rect.lemma_wf_edges();
                lemma_lattice_edges(rect, counts, sizing, row as int, 0);
            }
            let bottom: i32 = rect.top() - offset_of_edge(height, num_cells.row, sizing, row + 1);
            let cell_height: i32 = top - bottom;
            let y: i32 = top - cell_height / 2;

            let mut cells_in_row: Vec<Cell> = Vec::new();
            let mut col: usize = 0;
            let mut left: i32 = rect.left();
            while col < num_cells.col
                invariant
                    rect.wf(),
                    counts == *num_cells,
                    lattice_fits(rect, counts, sizing),
                    sizing_fits(rect.spec_w(), counts.col as int, sizing),
                    width == rect.spec_w(),
                    row < counts.row,
                    col <= counts.col,
                    cells_in_row@.len() == col,
                    top == row_edge(rect, counts, sizing, row as int),
                    bottom == row_edge(rect, counts, sizing, row as int + 1),
                    cell_height == top - bottom,
                    y == top - (top - bottom) / 2,
                    left == column_edge(rect, counts, sizing, col as int),
                    forall|c: int|
                        0 <= c < col ==> #[trigger] cells_in_row@[c] == cell_at(
                            rect,
                            counts,
                            sizing,
                            row as int,
                            c,
                        ),
                decreases counts.col - col,
            {
                proof {
                    rect.lemma_wf_edges();
                    lemma_lattice_edges(rect, counts, sizing, row as int, col as int);
                }
                let right: i32 = rect.left() + offset_of_edge(
                    width,
                    num_cells.col,
                    sizing,
                    col + 1,
                );
                let cell_width: i32 = right - left;
                // Half a cell is added to land on the centre.
                let x: i32 = left + cell_width / 2;
                cells_in_row.push(
                    Cell::new(
                        Vec2 { x: cell_width, y: cell_height },
                        Vec2 { x, y },
                        CellIndex { row, col },
                    ),
                );
                col = col + 1;
                left = right;
            }
            proof {
                assert(cells_in_row@ =~= grid_cells(rect, counts, sizing)[row as int]);
            }
            cells.push(cells_in_row);
            row = row + 1;
            top = bottom;
        }
        proof {
            assert(cells@[0]@ == grid_cells(rect, counts, sizing)[0]);
            let stored = Seq::new(cells@.len(), |r: int| cells@[r]@);
            assert(stored =~= grid_cells(rect, counts, sizing));
        }
        Grid { cells, rect, sizing }
    }

    /// Partitions `bounding_rect` into `num_cells.row` rows and
    /// `num_cells.col` columns by dividing it evenly among them. Fails only
    /// when one of the counts is zero.
    pub fn new(bounding_rect: Rect, num_cells: &CellIndex) -> (r: Result<Grid, GridError>)
        ensures
            num_cells.row == 0 ==> r == Err::<Grid, GridError>(GridError::NoRows),
            num_cells.row > 0 && num_cells.col == 0 ==> r == Err::<Grid, GridError>(
                GridError::NoColumns,
            ),
            num_cells.row > 0 && num_cells.col > 0 ==> (r matches Ok(grid) && grid.is_lattice(
                bounding_rect,
                *num_cells,
                Sizing::Divided,
            )),
    {
        if num_cells.row == 0 {
            return Err(GridError::NoRows);
        }
        if num_cells.col == 0 {
            return Err(GridError::NoColumns);
        }
        Ok(Grid::build(bounding_rect, num_cells, Sizing::Divided))
    }

    /// Covers `bounding_rect` with square cells of side `cell_size`, as many
    /// rows and columns of them as it takes. Where the side does not divide
    /// the rectangle, the cells of the last column and of the last row are
    /// cut off at the rectangle's edge. Fails when the side is not positive,
    /// and when the rectangle has no height or no width.
    pub fn with_cell_size(bounding_rect: Rect, cell_size: i32) -> (r: Result<Grid, GridError>)
        ensures
            cell_size <= 0 ==> r == Err::<Grid, GridError>(GridError::NoCellSize),
            cell_size > 0 && bounding_rect.spec_h() == 0 ==> r == Err::<Grid, GridError>(
                GridError::NoRows,
            ),
            cell_size > 0 && bounding_rect.spec_h() != 0 && bounding_rect.spec_w() == 0 ==> r
                == Err::<Grid, GridError>(GridError::NoColumns),
            cell_size > 0 && bounding_rect.spec_h() != 0 && bounding_rect.spec_w() != 0 ==> (
            r matches Ok(grid) && grid.is_lattice(
                bounding_rect,
                sized_counts(bounding_rect, cell_size as int),
                Sizing::Sized(cell_size),
            )),
    {
        if cell_size <= 0 {
            return Err(GridError::NoCellSize);
        }
        proof {
            use_type_invariant(&bounding_rect);
            bounding_rect.lemma_wf_edges();
            lemma_sized_extent(bounding_rect.spec_w(), cell_size as int);
            lemma_sized_extent(bounding_rect.spec_h(), cell_size as int);
        }
        let num_cells = CellIndex {
            row: count_parts(bounding_rect.h(), cell_size),
            col: count_parts(bounding_rect.w(), cell_size),
        };
        if num_cells.row == 0 {
            return Err(GridError::NoRows);
        }
        if num_cells.col == 0 {
            return Err(GridError::NoColumns);
        }
        Ok(Grid::build(bounding_rect, &num_cells, Sizing::Sized(cell_size)))
    }

    /// The rectangle that the grid partitions.
    #[verifier::when_used_as_spec(spec_rect)]
    pub fn rect(&self) -> (r: Rect)
        ensures
            r == self.spec_rect(),
    {
        self.rect
    }

    /// How the edges of the lattice are placed.
    #[verifier::when_used_as_spec(spec_sizing)]
    pub fn sizing(&self) -> (sizing: Sizing)
        ensures
            sizing == self.spec_sizing(),
    {
        self.sizing
    }

    /// The number of rows and columns.
    #[verifier::when_used_as_spec(spec_num_cells)]
    pub fn num_cells(&self) -> (n: CellIndex)
        ensures
            n == self.spec_num_cells(),
            n.row > 0,
            n.col > 0,
    {
        proof {
            use_type_invariant(self);
        }
        CellIndex { row: self.cells.len(), col: self.cells[0].len() }
    }

    /// The row major iterator will traverse from the top left of the lattice
    /// down to the bottom right, going cell by cell in each row. Every call
    /// starts a fresh traversal.
    pub fn row_major_iter(&self) -> (iter: GridIterator<'_>)
        ensures
            iter.wf(),
            iter.spec_grid() == self,
            iter.position() == 0,
    {
        GridIterator::new(self)
    }

    /// The cell at `(row, col)`, if the grid has one there.
    pub fn get_cell_by_index(&self, row: usize, col: usize) -> (r: Option<&Cell>)
        ensures
            row < self.spec_num_cells().row && col < self.spec_num_cells().col ==> r == Some(
                &cell_at(
                    self.spec_rect(),
                    self.spec_num_cells(),
                    self.spec_sizing(),
                    row as int,
                    col as int,
                ),
            ),
            !(row < self.spec_num_cells().row && col < self.spec_num_cells().col) ==> r.is_none(),
    {
        proof {
            use_type_invariant(self);
        }
        if row >= self.cells.len() {
            return None;
        }
        assert(self.cells@[row as int]@ == self@[row as int]);
        let cells_in_row = &self.cells[row];
        if col >= cells_in_row.len() {
            return None;
        }
        Some(&cells_in_row[col])
    }

    /// The distance between two opposite corners of the rectangle, rounded
    /// down to whole units.
    pub fn diagonal_length(&self) -> (d: i64)
        ensures
            is_floor_sqrt(
                self.spec_rect().spec_w() * self.spec_rect().spec_w() + self.spec_rect().spec_h()
                    * self.spec_rect().spec_h(),
                d as int,
            ),
    {
        let w: u64 = self.rect.w() as u64;
        let h: u64 = self.rect.h() as u64;
        proof {
            lemma_product_bound(w as int, w as int);
            lemma_product_bound(h as int, h as int);
        }
        isqrt(w * w + h * h) as i64
    }

    /// Width and height of the rectangle.
    pub fn wh(&self) -> (v: Vec2)
        ensures
            v.x == self.spec_rect().spec_w(),
            v.y == self.spec_rect().spec_h(),
    {
        self.rect.wh()
    }

    /// Centre of the rectangle, rounded toward its bottom-left corner.
    pub fn xy(&self) -> (v: Vec2)
        ensures
            v.x == self.spec_rect().spec_left() + self.spec_rect().spec_w() / 2,
            v.y == self.spec_rect().spec_bottom() + self.spec_rect().spec_h() / 2,
    {
        self.rect.xy()
    }

    /// Every cell, in the order in which `row_major_iter` yields them.
    pub fn row_major_vec(&self) -> (cells: Vec<Cell>)
        ensures
            cells@ == self.row_major(),
    {
        let mut cells: Vec<Cell> = Vec::new();
        let mut iter = self.row_major_iter();
        proof {
            use_type_invariant(self);
            lemma_mul_inequality(
                1,
                self.spec_num_cells().row as int,
                self.spec_num_cells().col as int,
            );
        }
        loop
            invariant
                self.wf(),
                iter.wf(),
                iter.spec_grid() == self,
                0 <= iter.position() <= self.row_major().len(),
                cells@ == self.row_major().subrange(0, iter.position()),
                self.row_major().len() == self.spec_num_cells().row * self.spec_num_cells().col,
            ensures
                cells@ == self.row_major(),
            decreases self.row_major().len() - iter.position(),
        {
            let ghost before = iter.position();
            match iter.next() {
                Some(cell) => {
                    cells.push(*cell);
                    assert(cells@ =~= self.row_major().subrange(0, before + 1));
                },
                None => {
                    assert(cells@ =~= self.row_major());
                    break ;
                },
            }
        }
        cells
    }
}

/// A traversal of a grid in row-major order.
pub struct GridIterator<'a> {
    grid: &'a Grid,
    curr: (usize, usize),
}

impl<'a> GridIterator<'a> {
    /// The grid being traversed.
    pub closed spec fn spec_grid(&self) -> &Grid {
        self.grid
    }

    /// How many cells the traversal has yielded so far.
    pub closed spec fn position(&self) -> int {
        self.curr.1 * self.grid.spec_num_cells().col + self.curr.0
    }

    /// The invariant of every traversal: its grid is well formed and its
    /// cursor lies inside the lattice or just past the end of a row.
    #[verifier::type_invariant]
    pub closed spec fn wf(&self) -> bool {
        &&& self.grid.wf()
        &&& self.curr.1 < self.grid.spec_num_cells().row
        &&& self.curr.0 <= self.grid.spec_num_cells().col
    }

    fn new(grid: &'a Grid) -> (iter: Self)
        ensures
            iter.wf(),
            iter.spec_grid() == grid,
            iter.position() == 0,
    {
        proof {
            use_type_invariant(grid);
        }
        GridIterator { grid, curr: (0, 0) }
    }

    /// Yields the next cell in row-major order, or `None` once every cell has
    /// been yielded.
    pub fn next(&mut self) -> (r: Option<&'a Cell>)
        ensures
            final(self).wf(),
            final(self).spec_grid() == old(self).spec_grid(),
            old(self).position() < old(self).spec_grid().row_major().len() ==> {
                &&& r == Some(&old(self).spec_grid().row_major()[old(self).position()])
                &&& final(self).position() == old(self).position() + 1
            },
            old(self).position() >= old(self).spec_grid().row_major().len() ==> {
                &&& r.is_none()
                &&& final(self).position() == old(self).position()
            },
    {
        proof {
            use_type_invariant(&*self);
        }
        let ghost rect = self.grid.spec_rect();
        let ghost counts = self.grid.spec_num_cells();
        let ghost sizing = self.grid.spec_sizing();
        let ghost start = self.position();
        let mut col_idx: usize = self.curr.0;
        let mut row_idx: usize = self.curr.1;
        proof {
            lemma_mul_inequality(1, counts.row as int, counts.col as int);
        }

        // We're at or past (should never go past) the last row of the grid.
        if row_idx >= self.grid.cells.len() {
            return None;
        }
        // Move through the grid till the next valid cell is found, skipping
        // the end of a row.

        let mut row: &'a Vec<Cell> = &self.grid.cells[row_idx];
        while col_idx >= row.len()
            invariant
                self.grid.wf(),
                rect == self.grid.spec_rect(),
                counts == self.grid.spec_num_cells(),
                sizing == self.grid.spec_sizing(),
                self.grid@ == grid_cells(rect, counts, sizing),
                row_idx < counts.row,
                col_idx <= counts.col,
                row@ == self.grid@[row_idx as int],
                row_idx == self.grid.cells@.len() - 1 || row_idx < self.grid.cells@.len() - 1,
                start == row_idx * counts.col + col_idx,
                self.position() == start,
                self.wf(),
                *self == *old(self),
                row_major_cells(rect, counts, sizing).len() == counts.row * counts.col,
            decreases counts.row - row_idx,
        {
            proof {
                lemma_mul_is_distributive_add_other_way(counts.col as int, row_idx as int, 1);
                lemma_mul_inequality(row_idx as int + 1, counts.row as int, counts.col as int);
            }
            row_idx = row_idx + 1;
            if row_idx >= self.grid.cells.len() {
                return None;
            }
            row = &self.grid.cells[row_idx];
            col_idx = 0;
        }

        let cell: &'a Cell = &row[col_idx];
        proof {
            lemma_mul_is_distributive_add_other_way(counts.col as int, row_idx as int, 1);
            lemma_mul_inequality(row_idx as int + 1, counts.row as int, counts.col as int);
            lemma_row_major_position(rect, counts, sizing, row_idx as int, col_idx as int);
        }
        col_idx = col_idx + 1;
        self.curr = (col_idx, row_idx);
        Some(cell)
    }
}

/// Whether `root` is the square root of `n`, rounded down.
pub open spec fn is_floor_sqrt(n: int, root: int) -> bool {
    &&& 0 <= root
    &&& root * root <= n
    &&& n < (root + 1) * (root + 1)
}

/// The square root of `n`, rounded down.
pub fn isqrt(n: u64) -> (root: u64)
    ensures
        is_floor_sqrt(n as int, root as int),
        root < 0x1_0000_0000,
{
    let mut low: u64 = 0;
    let mut high: u64 = 0x1_0000_0000;
    assert(0x1_0000_0000 * 0x1_0000_0000 > n) by (nonlinear_arith)
        requires
            n <= u64::MAX,
    ;
    while high - low > 1
        invariant
            low < high <= 0x1_0000_0000,
            low * low <= n < high * high,
        decreases high - low,
    {
        let mid: u64 = low + (high - low) / 2;
        assert(mid * mid <= 0xffff_ffff * 0xffff_ffff) by (nonlinear_arith)
            requires
                0 <= mid <= 0xffff_ffff,
        ;
        if mid * mid <= n {
            low = mid;
        } else {
            high = mid;
        }
    }
    low
}

/// A row-major traversal visits every cell exactly once and in order: it is
/// as long as the lattice has cells, and its `k`-th element is the cell in row
/// `k / columns` and column `k % columns`, which carries that very index.
/// The sequence depends on the rectangle, the counts and the sizing alone,
/// so traversing twice gives the same cells twice.
pub proof fn lemma_row_major_index(rect: Rect, num_cells: CellIndex, sizing: Sizing, k: int)
    requires
        num_cells.row > 0,
        num_cells.col > 0,
        0 <= k < num_cells.row * num_cells.col,
    ensures
        row_major_cells(rect, num_cells, sizing).len() == num_cells.row * num_cells.col,
        0 <= k / (num_cells.col as int) < num_cells.row,
        0 <= k % (num_cells.col as int) < num_cells.col,
        row_major_cells(rect, num_cells, sizing)[k] == grid_cells(rect, num_cells, sizing)[k / (
        num_cells.col as int)][k % (num_cells.col as int)],
        row_major_cells(rect, num_cells, sizing)[k].index.row == k / (num_cells.col as int),
        row_major_cells(rect, num_cells, sizing)[k].index.col == k % (num_cells.col as int),
{
    let rows = num_cells.row as int;
    let cols = num_cells.col as int;
    lemma_mul_inequality(1, rows, cols);
    lemma_fundamental_div_mod(k, cols);
    lemma_mod_pos_bound(k, cols);
    lemma_div_pos_is_pos(k, cols);
    if k / cols >= rows {
        lemma_mul_inequality(rows, k / cols, cols);
        lemma_mul_is_commutative(cols, k / cols);
    }
}

/// The cell at `(row, col)` is the one that a row-major traversal yields
/// after `row * columns + col` others.
pub proof fn lemma_row_major_position(
    rect: Rect,
    num_cells: CellIndex,
    sizing: Sizing,
    row: int,
    col: int,
)
    requires
        num_cells.row > 0,
        num_cells.col > 0,
        0 <= row < num_cells.row,
        0 <= col < num_cells.col,
    ensures
        row_major_cells(rect, num_cells, sizing).len() == num_cells.row * num_cells.col,
        0 <= row * num_cells.col + col < num_cells.row * num_cells.col,
        row_major_cells(rect, num_cells, sizing)[row * num_cells.col + col] == cell_at(
            rect,
            num_cells,
            sizing,
            row,
            col,
        ),
{
    let rows = num_cells.row as int;
    let cols = num_cells.col as int;
    lemma_mul_is_distributive_add_other_way(cols, row, 1);
    lemma_mul_inequality(row + 1, rows, cols);
    lemma_mul_inequality(0, row, cols);
    lemma_fundamental_div_mod_converse(row * cols + col, cols, row, col);
}

/// The cells tile the rectangle exactly, without gaps and without overlaps.
/// Each cell reaches from one edge of the lattice to the next, so it starts
/// where its left and upper neighbours end; the first column starts at the
/// left edge of the rectangle and the last one ends at its right edge; the
/// first row starts at the top edge and the last one ends at the bottom
/// edge; and every cell lies inside the rectangle.
pub proof fn lemma_cells_tile(
    rect: Rect,
    num_cells: CellIndex,
    sizing: Sizing,
    row: int,
    col: int,
)
    requires
        rect.wf(),
        lattice_fits(rect, num_cells, sizing),
        0 <= row < num_cells.row,
        0 <= col < num_cells.col,
    ensures
        ({
            let cell = cell_at(rect, num_cells, sizing, row, col);
            &&& cell.index == CellIndex { row: row as usize, col: col as usize }
            &&& cell.spec_left() == column_edge(rect, num_cells, sizing, col)
            &&& cell.spec_right() == column_edge(rect, num_cells, sizing, col + 1)
            &&& cell.spec_top() == row_edge(rect, num_cells, sizing, row)
            &&& cell.spec_bottom() == row_edge(rect, num_cells, sizing, row + 1)
            &&& col + 1 < num_cells.col ==> cell.spec_right() == cell_at(
                rect,
                num_cells,
                sizing,
                row,
                col + 1,
            ).spec_left()
            &&& row + 1 < num_cells.row ==> cell.spec_bottom() == cell_at(
                rect,
                num_cells,
                sizing,
                row + 1,
                col,
            ).spec_top()
            &&& col == 0 ==> cell.spec_left() == rect.spec_left()
            &&& row == 0 ==> cell.spec_top() == rect.spec_top()
            &&& col + 1 == num_cells.col ==> cell.spec_right() == rect.spec_right()
            &&& row + 1 == num_cells.row ==> cell.spec_bottom() == rect.spec_bottom()
            &&& rect.spec_left() <= cell.spec_left() <= cell.spec_right() <= rect.spec_right()
            &&& rect.spec_bottom() <= cell.spec_bottom() <= cell.spec_top() <= rect.spec_top()
            &&& cell.spec_left() <= cell.xy.x <= cell.spec_right()
            &&& cell.spec_bottom() <= cell.xy.y <= cell.spec_top()
        }),
{
    rect.lemma_wf_edges();
    lemma_lattice_edges(rect, num_cells, sizing, row, col);
    if col + 1 < num_cells.col {
        lemma_lattice_edges(rect, num_cells, sizing, row, col + 1);
    }
    if row + 1 < num_cells.row {
        lemma_lattice_edges(rect, num_cells, sizing, row + 1, col);
    }
}

/// In a grid that divides its rectangle evenly, every edge lies at its real
/// place rounded down: the edge before column `c` of `C` less than one unit
/// left of `left + c * w / C`, the edge above row `r` of `R` less than one
/// unit above `top - r * h / R`. Every cell is therefore `w / C` units wide
/// or one more and `h / R` units high or one more, and its centre lies less
/// than a unit and a half from `left + (c + 1/2) * w / C` and from `top - (r
/// + 1/2) * h / R`.
pub proof fn lemma_divided_cells(rect: Rect, num_cells: CellIndex, row: int, col: int)
    requires
        rect.wf(),
        num_cells.row > 0,
        num_cells.col > 0,
        0 <= row < num_cells.row,
        0 <= col < num_cells.col,
    ensures
        ({
            let cell = cell_at(rect, num_cells, Sizing::Divided, row, col);
            let across = cell.spec_left() - rect.spec_left();
            let down = rect.spec_top() - cell.spec_top();
            let w = rect.spec_w();
            let h = rect.spec_h();
            let cols = num_cells.col as int;
            let rows = num_cells.row as int;
            &&& cols * across <= col * w < cols * (across + 1)
            &&& rows * down <= row * h < rows * (down + 1)
            &&& w / cols <= cell.wh.x <= w / cols + 1
            &&& h / rows <= cell.wh.y <= h / rows + 1
            &&& 2 * cols * (cell.xy.x - rect.spec_left()) <= (2 * col + 1) * w
            &&& (2 * col + 1) * w < 2 * cols * (cell.xy.x - rect.spec_left()) + 3 * cols
            &&& 2 * rows * (rect.spec_top() - cell.xy.y) <= (2 * row + 1) * h
            &&& (2 * row + 1) * h < 2 * rows * (rect.spec_top() - cell.xy.y) + 3 * rows
        }),
{
    rect.lemma_wf_edges();
    let w = rect.spec_w();
    let h = rect.spec_h();
    let cols = num_cells.col as int;
    let rows = num_cells.row as int;
    lemma_cells_tile(rect, num_cells, Sizing::Divided, row, col);
    lemma_divided_edges(w, cols, col);
    lemma_divided_edges(h, rows, row);
    lemma_edge_offsets(w, cols, Sizing::Divided, col, col + 1);
    lemma_edge_offsets(h, rows, Sizing::Divided, row, row + 1);
    lemma_centre_place(
        w,
        cols,
        col,
        edge_offset(w, cols, Sizing::Divided, col),
        edge_offset(w, cols, Sizing::Divided, col + 1),
    );
    lemma_centre_place(
        h,
        rows,
        row,
        edge_offset(h, rows, Sizing::Divided, row),
        edge_offset(h, rows, Sizing::Divided, row + 1),
    );
}

/// Where two neighbouring edges lie at their real places rounded down, the
/// point half way between them, rounded toward the nearer edge, lies less
/// than a unit and a half before the real centre.
proof fn lemma_centre_place(extent: int, count: int, k: int, near: int, far: int)
    requires
        0 <= extent,
        0 < count,
        0 <= k < count,
        near == (k * extent) / count,
        far == ((k + 1) * extent) / count,
        0 <= near <= far,
    ensures
        2 * count * (near + (far - near) / 2) <= (2 * k + 1) * extent,
        (2 * k + 1) * extent < 2 * count * (near + (far - near) / 2) + 3 * count,
{
    let half = (far - near) / 2;
    lemma_mul_nonnegative(k, extent);
    lemma_mul_nonnegative(k + 1, extent);
    lemma_fundamental_div_mod(k * extent, count);
    lemma_mod_pos_bound(k * extent, count);
    lemma_fundamental_div_mod((k + 1) * extent, count);
    lemma_mod_pos_bound((k + 1) * extent, count);
    assert((2 * k + 1) * extent == k * extent + (k + 1) * extent) by (nonlinear_arith);
    assert(2 * count * (near + half) == count * (2 * near + 2 * half)) by (nonlinear_arith);
    assert(count * (near + far) == count * near + count * far) by (nonlinear_arith);
    assert(count * (2 * near + 2 * half) <= count * (near + far)) by (nonlinear_arith)
        requires
            0 < count,
            2 * near + 2 * half <= near + far,
    ;
    assert(count * (near + far - 1) <= count * (2 * near + 2 * half)) by (nonlinear_arith)
        requires
            0 < count,
            near + far - 1 <= 2 * near + 2 * half,
    ;
    assert(count * (near + far - 1) == count * (near + far) - count) by (nonlinear_arith);
}

/// In a grid that divides its rectangle evenly by counts that divide its
/// width and its height, every edge lies exactly on its place and the cells
/// are all alike: `w / C` wide and `h / R` high, the cell at `(r, c)` with
/// its left edge `c` widths from the left and its top edge `r` heights from
/// the top.
pub proof fn lemma_divided_cells_when_counts_divide(
    rect: Rect,
    num_cells: CellIndex,
    row: int,
    col: int,
)
    requires
        rect.wf(),
        num_cells.row > 0,
        num_cells.col > 0,
        rect.spec_w() % (num_cells.col as int) == 0,
        rect.spec_h() % (num_cells.row as int) == 0,
        0 <= row < num_cells.row,
        0 <= col < num_cells.col,
    ensures
        ({
            let cell = cell_at(rect, num_cells, Sizing::Divided, row, col);
            let cell_width = rect.spec_w() / (num_cells.col as int);
            let cell_height = rect.spec_h() / (num_cells.row as int);
            &&& cell.wh.x == cell_width
            &&& cell.wh.y == cell_height
            &&& cell.spec_left() == rect.spec_left() + col * cell_width
            &&& cell.spec_top() == rect.spec_top() - row * cell_height
            &&& cell.xy.x == rect.spec_left() + col * cell_width + cell_width / 2
            &&& cell.xy.y == rect.spec_top() - row * cell_height - cell_height / 2
        }),
{
    rect.lemma_wf_edges();
    lemma_cells_tile(rect, num_cells, Sizing::Divided, row, col);
    lemma_divided_edges(rect.spec_w(), num_cells.col as int, col);
    lemma_divided_edges(rect.spec_h(), num_cells.row as int, row);
    lemma_div_pos_is_pos(rect.spec_w(), num_cells.col as int);
    lemma_div_pos_is_pos(rect.spec_h(), num_cells.row as int);
}

/// In a grid of square cells of a given side, every cell but those of the
/// last column is as wide as the side, and every cell but those of the last
/// row as high; the last ones are what is left, which is more than nothing
/// and no more than the side.
pub proof fn lemma_sized_cells(rect: Rect, side: i32, row: int, col: int)
    requires
        rect.wf(),
        side > 0,
        0 <= row < sized_counts(rect, side as int).row,
        0 <= col < sized_counts(rect, side as int).col,
    ensures
        ({
            let num_cells = sized_counts(rect, side as int);
            let cell = cell_at(rect, num_cells, Sizing::Sized(side), row, col);
            &&& cell.spec_left() == rect.spec_left() + side * col
            &&& cell.spec_top() == rect.spec_top() - side * row
            &&& col + 1 < num_cells.col ==> cell.wh.x == side
            &&& row + 1 < num_cells.row ==> cell.wh.y == side
            &&& 0 < cell.wh.x <= side
            &&& 0 < cell.wh.y <= side
        }),
{
    let num_cells = sized_counts(rect, side as int);
    let sizing = Sizing::Sized(side);
    let wide = side as int;
    rect.lemma_wf_edges();
    lemma_sized_extent(rect.spec_w(), wide);
    lemma_sized_extent(rect.spec_h(), wide);
    lemma_cells_tile(rect, num_cells, sizing, row, col);
    lemma_mul_is_distributive_add(wide, col, 1);
    lemma_mul_is_distributive_add(wide, row, 1);
    lemma_mul_inequality(col, num_cells.col - 1, wide);
    lemma_mul_inequality(row, num_cells.row - 1, wide);
    lemma_mul_is_commutative(wide, col);
    lemma_mul_is_commutative(wide, row);
    lemma_mul_is_commutative(wide, num_cells.col - 1);
    lemma_mul_is_commutative(wide, num_cells.row - 1);
    if col + 1 < num_cells.col {
        lemma_mul_inequality(col + 1, num_cells.col - 1, wide);
        lemma_mul_is_commutative(wide, col + 1);
    }
    if row + 1 < num_cells.row {
        lemma_mul_inequality(row + 1, num_cells.row - 1, wide);
        lemma_mul_is_commutative(wide, row + 1);
    }
}

/// Cells in different columns do not overlap horizontally, and cells in
/// different rows do not overlap vertically.
pub proof fn lemma_cells_are_disjoint(
    rect: Rect,
    num_cells: CellIndex,
    sizing: Sizing,
    row_a: int,
    col_a: int,
    row_b: int,
    col_b: int,
)
    requires
        rect.wf(),
        lattice_fits(rect, num_cells, sizing),
        0 <= row_a < num_cells.row,
        0 <= col_a < num_cells.col,
        0 <= row_b < num_cells.row,
        0 <= col_b < num_cells.col,
    ensures
        col_a < col_b ==> cell_at(rect, num_cells, sizing, row_a, col_a).spec_right() <= cell_at(
            rect,
            num_cells,
            sizing,
            row_b,
            col_b,
        ).spec_left(),
        row_a < row_b ==> cell_at(rect, num_cells, sizing, row_a, col_a).spec_bottom() >= cell_at(
            rect,
            num_cells,
            sizing,
            row_b,
            col_b,
        ).spec_top(),
{
    lemma_cells_tile(rect, num_cells, sizing, row_a, col_a);
    lemma_cells_tile(rect, num_cells, sizing, row_b, col_b);
    lemma_lattice_edges(rect, num_cells, sizing, row_a, col_a);
    if col_a < col_b {
        lemma_edge_offsets(rect.spec_w(), num_cells.col as int, sizing, col_a + 1, col_b);
    }
    if row_a < row_b {
        lemma_edge_offsets(rect.spec_h(), num_cells.row as int, sizing, row_a + 1, row_b);
    }
}

} // verus!
