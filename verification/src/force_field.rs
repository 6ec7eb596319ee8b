//! A lattice of forces laid over a rectangle, queried by position.
//!
//! The lattice has one force for every `RESOLUTION` units of the rectangle,
//! counted from its bottom-left corner. Where the forces come from is up to
//! the caller: `lattice_points` says where the field is to be sampled, and
//! `ForceField::new` and `ForceField::update` take the samples.

use vstd::prelude::*;
use vstd::arithmetic::div_mod::lemma_div_pos_is_pos;
use vstd::arithmetic::mul::lemma_mul_nonnegative;
use crate::geom::{Rect, Vec2};
use crate::grid::{sized_counts, CellIndex};
use crate::units::spec_clamp;

verus! {

/// The distance between two neighbouring points of the lattice.
pub const RESOLUTION: i32 = 10_000;

/// Why a force field could not take a set of samples.
#[derive(Debug, Clone, Copy, PartialEq, Eq, Structural)]
pub enum ForceFieldError {
    /// The samples do not have one row for every row of the lattice, or one
    /// entry for every column in each row.
    WrongSize,
}

/// How many lattice points it takes to span `extent`: the extent divided by
/// `RESOLUTION`, rounded up.
pub open spec fn lattice_count(extent: int) -> int {
    (extent + RESOLUTION - 1) / (RESOLUTION as int)
}

/// The number of rows and columns of the lattice over `rect`: as many as it
/// takes to cover the rectangle with squares of side `RESOLUTION`.
pub open spec fn spec_lattice_size(rect: Rect) -> CellIndex {
    sized_counts(rect, RESOLUTION as int)
}

/// The place of the lattice point in row `row` and column `col`, rows
/// counted upwards from the bottom edge and columns rightwards from the left
/// edge.
pub open spec fn spec_lattice_point(rect: Rect, row: int, col: int) -> Vec2 {
    Vec2 {
        x: (rect.spec_left() + col * RESOLUTION) as i32,
        y: (rect.spec_bottom() + row * RESOLUTION) as i32,
    }
}

/// The index, among `count` lattice points that span `extent`, that belongs
/// to the place `offset` units from the start: `offset * count / extent`
/// rounded down, held within the valid indices.
pub open spec fn lattice_index(offset: int, extent: int, count: int) -> int {
    spec_clamp((offset * count) / extent, 0, count - 1)
}

/// Whether `forces` has the shape of the lattice over `rect`.
pub open spec fn fits_lattice(rect: Rect, forces: Seq<Seq<Vec2>>) -> bool {
    &&& forces.len() == spec_lattice_size(rect).row
    &&& forall|row: int|
        0 <= row < forces.len() ==> (#[trigger] forces[row]).len() == spec_lattice_size(rect).col
}

/// The lattice has no more points than the rectangle has units, and none at
/// all along an edge of zero length.
pub proof fn lemma_lattice_count(extent: int)
    requires
        0 <= extent <= i32::MAX,
    ensures
        0 <= lattice_count(extent) <= extent,
        lattice_count(extent) == 0 <==> extent == 0,
        (lattice_count(extent) - 1) * RESOLUTION < extent || extent == 0,
        extent <= lattice_count(extent) * RESOLUTION,
{
}

/// A position always snaps to a point that the lattice has, however far
/// outside the rectangle it lies.
pub proof fn lemma_lattice_index_is_valid(offset: int, extent: int, count: int)
    requires
        0 < count,
    ensures
        0 <= lattice_index(offset, extent, count) < count,
{
}

fn count_points(extent: i32) -> (count: usize)
    requires
        extent >= 0,
    ensures
        count == lattice_count(extent as int),
{
    ((extent as i64 + RESOLUTION as i64 - 1) / RESOLUTION as i64) as usize
}

/// The number of rows and columns of the lattice over `rect`.
pub fn lattice_size(rect: &Rect) -> (size: CellIndex)
    ensures
        size == spec_lattice_size(*rect),
{
    proof {
        use_type_invariant(rect);
        rect.lemma_wf_edges();
    }
    CellIndex { row: count_points(rect.h()), col: count_points(rect.w()) }
}

/// The places at which the field is to be sampled, one for every point of
/// the lattice over `rect`, row by row from the bottom.
pub fn lattice_points(rect: &Rect) -> (points: Vec<Vec<Vec2>>)
    ensures
        points@.len() == spec_lattice_size(*rect).row,
        forall|row: int|
            0 <= row < points@.len() ==> (#[trigger] points@[row])@.len() == spec_lattice_size(
                *rect,
            ).col,
        forall|row: int, col: int|
            0 <= row < spec_lattice_size(*rect).row && 0 <= col < spec_lattice_size(*rect).col
                ==> #[trigger] points@[row]@[col] == spec_lattice_point(*rect, row, col),
{
    proof {
        use_type_invariant(rect);
        rect.lemma_wf_edges();
        lemma_lattice_count(rect.spec_w());
        lemma_lattice_count(rect.spec_h());
    }
    let size = lattice_size(rect);
    let bottom_left = rect.bottom_left();
    let mut points: Vec<Vec<Vec2>> = Vec::new();
    let mut i: usize = 0;
    while i < size.row
        invariant
            rect.wf(),
            size == spec_lattice_size(*rect),
            size.row == lattice_count(rect.spec_h()),
            size.col == lattice_count(rect.spec_w()),
            (size.row - 1) * RESOLUTION < rect.spec_h() || rect.spec_h() == 0,
            (size.col - 1) * RESOLUTION < rect.spec_w() || rect.spec_w() == 0,
            size.row <= rect.spec_h(),
            size.col <= rect.spec_w(),
            bottom_left == (Vec2 { x: rect.spec_left(), y: rect.spec_bottom() }),
            i <= size.row,
            points@.len() == i,
            forall|row: int| 0 <= row < i ==> (#[trigger] points@[row])@.len() == size.col,
            forall|row: int, col: int|
                0 <= row < i && 0 <= col < size.col ==> #[trigger] points@[row]@[col]
                    == spec_lattice_point(*rect, row, col),
        decreases size.row - i,
    {
        let mut points_in_row: Vec<Vec2> = Vec::new();
        let mut j: usize = 0;
        while j < size.col
            invariant
                rect.wf(),
                size.row == lattice_count(rect.spec_h()),
                size.col == lattice_count(rect.spec_w()),
                (size.row - 1) * RESOLUTION < rect.spec_h() || rect.spec_h() == 0,
                (size.col - 1) * RESOLUTION < rect.spec_w() || rect.spec_w() == 0,
                size.row <= rect.spec_h(),
                size.col <= rect.spec_w(),
                bottom_left == (Vec2 { x: rect.spec_left(), y: rect.spec_bottom() }),
                i < size.row,
                j <= size.col,
                points_in_row@.len() == j,
                forall|col: int|
                    0 <= col < j ==> #[trigger] points_in_row@[col] == spec_lattice_point(
                        *rect,
                        i as int,
                        col,
                    ),
            decreases size.col - j,
        {
            proof {
                rect.lemma_wf_edges();
            }
            points_in_row.push(
                Vec2 {
                    x: (bottom_left.x as i64 + j as i64 * RESOLUTION as i64) as i32,
                    y: (bottom_left.y as i64 + i as i64 * RESOLUTION as i64) as i32,
                },
            );
            j = j + 1;
        }
        points.push(points_in_row);
        i = i + 1;
    }
    points
}

fn index_of(offset: i64, extent: i32, count: usize) -> (index: usize)
    requires
        -0x1_0000_0000 <= offset <= 0x1_0000_0000,
        0 < extent,
        0 < count <= extent,
    ensures
        index == lattice_index(offset as int, extent as int, count as int),
        index < count,
{
    if offset <= 0 {
        proof {
            lemma_index_at_or_before_start(offset as int, extent as int, count as int);
        }
        return 0;
    }
    let wide_count: i64 = count as i64;
    proof {
        lemma_mul_nonnegative(offset as int, wide_count as int);
        lemma_div_pos_is_pos(offset * wide_count, extent as int);
        assert(offset * wide_count <= 0x1_0000_0000 * 0x7fff_ffff) by (nonlinear_arith)
            requires
                0 <= offset <= 0x1_0000_0000,
                0 <= wide_count <= 0x7fff_ffff,
        ;
    }
    // Essentially floor((offset / extent) * count).
    let scaled: i64 = (offset * wide_count) / extent as i64;
    if scaled >= count as i64 {
        count - 1
    } else {
        scaled as usize
    }
}

/// Places at or before the start of the lattice belong to its first point.
proof fn lemma_index_at_or_before_start(offset: int, extent: int, count: int)
    requires
        offset <= 0,
        0 < extent,
        0 < count,
    ensures
        lattice_index(offset, extent, count) == 0,
{
    assert(offset * count <= 0) by (nonlinear_arith)
        requires
            offset <= 0,
            0 < count,
    ;
    if offset * count == 0 {
        vstd::arithmetic::div_mod::lemma_div_basics_1(extent);
    } else {
        vstd::arithmetic::div_mod::lemma_div_is_ordered(offset * count, 0, extent);
        vstd::arithmetic::div_mod::lemma_div_basics_1(extent);
    }
}

/// ForceField allows callers to create, update, and query a lattice of
/// forces. It can be asked for the acceleration at any position, inside the
/// rectangle or not; movers that take up this acceleration tick by tick give
/// the impression of smooth motion.
pub struct ForceField {
    rect: Rect,
    force_field: Vec<Vec<Vec2>>,
}

impl View for ForceField {
    type V = Seq<Seq<Vec2>>;

    /// The forces, one sequence for every row of the lattice, the bottom row
    /// first.
    closed spec fn view(&self) -> Seq<Seq<Vec2>> {
        Seq::new(self.force_field@.len(), |row: int| self.force_field@[row]@)
    }
}

/// The rows of samples as sequences.
pub open spec fn sampled(forces: Vec<Vec<Vec2>>) -> Seq<Seq<Vec2>> {
    Seq::new(forces@.len(), |row: int| forces@[row]@)
}

fn has_shape(rect: &Rect, forces: &Vec<Vec<Vec2>>) -> (fits: bool)
    ensures
        fits == fits_lattice(*rect, sampled(*forces)),
{
    let size = lattice_size(rect);
    if forces.len() != size.row {
        return false;
    }
    let mut i: usize = 0;
    while i < forces.len()
        invariant
            i <= forces@.len(),
            size == spec_lattice_size(*rect),
            forces@.len() == size.row,
            forall|row: int| 0 <= row < i ==> (#[trigger] sampled(*forces)[row]).len() == size.col,
        decreases forces@.len() - i,
    {
        if forces[i].len() != size.col {
            assert(sampled(*forces)[i as int].len() != size.col);
            return false;
        }
        assert(sampled(*forces)[i as int].len() == size.col);
        i = i + 1;
    }
    true
}

impl ForceField {
    /// The invariant of every force field: it holds one force for every
    /// point of the lattice over its rectangle.
    #[verifier::type_invariant]
    pub closed spec fn wf(&self) -> bool {
        &&& self.rect.wf()
        &&& self.force_field@.len() == spec_lattice_size(self.rect).row
        &&& forall|row: int|
            0 <= row < self.force_field@.len() ==> (#[trigger] self.force_field@[row])@.len()
                == spec_lattice_size(self.rect).col
    }

    /// The rectangle that the lattice is laid over.
    pub closed spec fn spec_rect(&self) -> Rect {
        self.rect
    }

    /// The force that a well-formed field answers with for `position`: that
    /// of the lattice point whose column belongs to the distance from the
    /// left edge and whose row belongs to the distance from the bottom
    /// edge; no force at all when the lattice is empty.
    pub open spec fn spec_acceleration(&self, position: Vec2) -> Vec2 {
        let size = spec_lattice_size(self.spec_rect());
        if size.row == 0 || size.col == 0 {
            Vec2 { x: 0, y: 0 }
        } else {
            self@[lattice_index(
                position.y - self.spec_rect().spec_bottom(),
                self.spec_rect().spec_h(),
                size.row as int,
            )][lattice_index(
                position.x - self.spec_rect().spec_left(),
                self.spec_rect().spec_w(),
                size.col as int,
            )]
        }
    }

    /// A force field over `rect` that holds `forces`, one row of samples
    /// for every row of the lattice, the bottom row first. Fails when the
    /// samples do not have the shape of the lattice, and only then.
    pub fn new(rect: Rect, forces: Vec<Vec<Vec2>>) -> (r: Result<ForceField, ForceFieldError>)
        ensures
            !fits_lattice(rect, sampled(forces)) ==> r == Err::<
                ForceField,
                ForceFieldError,
            >(ForceFieldError::WrongSize),
            fits_lattice(rect, sampled(forces)) ==> (
            r matches Ok(field) && {
                &&& field.wf()
                &&& field.spec_rect() == rect
                &&& field@ == sampled(forces)
            }),
    {
        proof {
            use_type_invariant(&rect);
        }
        if !has_shape(&rect, &forces) {
            return Err(ForceFieldError::WrongSize);
        }
        proof {
            assert forall|row: int| 0 <= row < forces@.len() implies (
            #[trigger] forces@[row])@.len() == spec_lattice_size(rect).col by {
                assert(sampled(forces)[row] == forces@[row]@);
            };
        }
        Ok(ForceField { rect, force_field: forces })
    }

    /// Moves the field to `rect` and replaces every force by the samples in
    /// `forces`. Fails when the samples do not have the shape of the lattice
    /// over `rect`, and only then; the field is then left as it was.
    pub fn update(&mut self, rect: Rect, forces: Vec<Vec<Vec2>>) -> (r: Result<(), ForceFieldError>)
        ensures
            final(self).wf(),
            !fits_lattice(rect, sampled(forces)) ==> {
                &&& r == Err::<(), ForceFieldError>(ForceFieldError::WrongSize)
                &&& final(self).spec_rect() == old(self).spec_rect()
                &&& final(self)@ == old(self)@
            },
            fits_lattice(rect, sampled(forces)) ==> {
                &&& r == Ok::<(), ForceFieldError>(())
                &&& final(self).spec_rect() == rect
                &&& final(self)@ == sampled(forces)
            },
    {
        proof {
            use_type_invariant(&*self);
            use_type_invariant(&rect);
        }
        if !has_shape(&rect, &forces) {
            return Err(ForceFieldError::WrongSize);
        }
        proof {
            assert forall|row: int| 0 <= row < forces@.len() implies (
            #[trigger] forces@[row])@.len() == spec_lattice_size(rect).col by {
                assert(sampled(forces)[row] == forces@[row]@);
            };
        }
        *self = ForceField { rect, force_field: forces };
        Ok(())
    }

    /// The rectangle that the lattice is laid over.
    #[verifier::when_used_as_spec(spec_rect)]
    pub fn rect(&self) -> (rect: Rect)
        ensures
            rect == self.spec_rect(),
    {
        self.rect
    }

    /// The number of rows and columns of the lattice.
    pub fn size(&self) -> (size: CellIndex)
        ensures
            size == spec_lattice_size(self.spec_rect()),
    {
        lattice_size(&self.rect)
    }

    /// The force at the lattice point in row `row` and column `col`, if the
    /// lattice has such a point.
    pub fn force_at(&self, row: usize, col: usize) -> (force: Option<Vec2>)
        ensures
            (row < spec_lattice_size(self.spec_rect()).row && col < spec_lattice_size(
                self.spec_rect(),
            ).col) ==> force == Some(self@[row as int][col as int]),
            !(row < spec_lattice_size(self.spec_rect()).row && col < spec_lattice_size(
                self.spec_rect(),
            ).col) ==> force.is_none(),
    {
        proof {
            use_type_invariant(self);
        }
        if row >= self.force_field.len() {
            return None;
        }
        assert(self@[row as int] == self.force_field@[row as int]@);
        if col >= self.force_field[row].len() {
            return None;
        }
        Some(self.force_field[row][col])
    }

    /// Snaps a position to a point of the lattice and returns the force
    /// found there. Positions outside the rectangle snap to the nearest row
    /// and column; an empty lattice exerts no force.
    pub fn get_acceleration_from_position(&self, position: Vec2) -> (acceleration: Vec2)
        ensures
            acceleration == self.spec_acceleration(position),
    {
        proof {
            use_type_invariant(self);
            use_type_invariant(&self.rect);
            self.rect.lemma_wf_edges();
            lemma_lattice_count(self.rect.spec_w());
            lemma_lattice_count(self.rect.spec_h());
        }
        let rows: usize = self.force_field.len();
        if rows == 0 {
            return Vec2 { x: 0, y: 0 };
        }
        assert(self@[0] == self.force_field@[0]@);
        let cols: usize = self.force_field[0].len();
        if cols == 0 {
            return Vec2 { x: 0, y: 0 };
        }
        let row: usize = index_of(
            position.y as i64 - self.rect.bottom() as i64,
            self.rect.h(),
            rows,
        );
        let col: usize = index_of(position.x as i64 - self.rect.left() as i64, self.rect.w(), cols);
        assert(self@[row as int] == self.force_field@[row as int]@);
        self.force_field[row][col]
    }
}

} // verus!
