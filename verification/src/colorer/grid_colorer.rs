//! What every colorer of grid cells has in common.

use vstd::prelude::*;
use crate::colors::Hsv;
use crate::grid::{Cell, CellIndex};
use super::alternating_colorer::AlternatingColorer;
use super::interpolated_colorer::InterpolatedColorer;
use super::palette_colorer::PaletteColorer;

verus! {

/// GridParams are all the various options provided to a colorer's `color`
/// function: the cell to colour and the number of rows and columns of the
/// grid that the cell belongs to.
pub struct GridParams<'a> {
    pub cell: &'a Cell,
    pub total_num_cells: &'a CellIndex,
}

/// Why a colorer could not be built.
#[derive(Debug, Clone, Copy, PartialEq, Eq, Structural)]
pub enum ColorerError {
    /// A list of colours, hues, saturations or values was empty.
    EmptyPalette,
    /// A rotation was given no colorers to rotate between.
    NoColorers,
    /// A colorer that answers every n-th time was given an `n` below one.
    BadModulus,
    /// The hue of a base colour lay outside the bounds it was given.
    HueOutOfBounds,
}

/// GridColorer is the trait that all colorers of grid cells implement.
pub trait GridColorer {
    /// Whether `color` is an answer that `color(params)` may give in this
    /// state.
    spec fn may_color(&self, params: GridParams, color: Hsv) -> bool;

    /// Whether `update` leads from this state to `next`.
    spec fn steps_to(&self, next: &Self) -> bool;

    /// Picks the colour of a cell. The colorer is left as it was.
    fn color(&self, params: GridParams) -> (color: Hsv)
        ensures
            self.may_color(params, color),
    ;

    /// Moves the colorer on to its next state.
    fn update(&mut self)
        ensures
            old(self).steps_to(final(self)),
    ;
}

/// Any of the colorers of this library that colour a cell by themselves; a
/// rotation over values of this type can switch between colorers of
/// different kinds.
pub enum AnyGridColorer {
    Alternating(AlternatingColorer),
    Interpolated(InterpolatedColorer),
    Palette(PaletteColorer),
}

impl GridColorer for AnyGridColorer {
    open spec fn may_color(&self, params: GridParams, color: Hsv) -> bool {
        match self {
            AnyGridColorer::Alternating(colorer) => colorer.may_color(params, color),
            AnyGridColorer::Interpolated(colorer) => colorer.may_color(params, color),
            AnyGridColorer::Palette(colorer) => GridColorer::may_color(colorer, params, color),
        }
    }

    open spec fn steps_to(&self, next: &Self) -> bool {
        match (self, next) {
            (AnyGridColorer::Alternating(colorer), AnyGridColorer::Alternating(after)) =>
                colorer.steps_to(after),
            (AnyGridColorer::Interpolated(colorer), AnyGridColorer::Interpolated(after)) =>
                colorer.steps_to(after),
            (AnyGridColorer::Palette(colorer), AnyGridColorer::Palette(after)) =>
                GridColorer::steps_to(colorer, after),
            _ => false,
        }
    }

    fn color(&self, params: GridParams) -> (color: Hsv) {
        match self {
            AnyGridColorer::Alternating(colorer) => colorer.color(params),
            AnyGridColorer::Interpolated(colorer) => colorer.color(params),
            AnyGridColorer::Palette(colorer) => GridColorer::color(colorer, params),
        }
    }

    fn update(&mut self) {
        match self {
            AnyGridColorer::Alternating(colorer) => colorer.update(),
            AnyGridColorer::Interpolated(colorer) => colorer.update(),
            AnyGridColorer::Palette(colorer) => GridColorer::update(colorer),
        }
    }
}

} // verus!
