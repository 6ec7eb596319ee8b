//! A colorer that walks through a fixed list of colours along the diagonals
//! of the grid.

use vstd::prelude::*;
use vstd::arithmetic::div_mod::lemma_mod_pos_bound;
use crate::colors::Hsv;
use crate::grid::CellIndex;
use super::grid_colorer::{ColorerError, GridColorer, GridParams};

verus! {

/// The colour that a list of colours gives to the cell at `index`: the one at
/// position `(row + col) mod length`.
pub open spec fn alternating_color(colors: Seq<Hsv>, index: CellIndex) -> Hsv {
    colors[(index.row + index.col) % (colors.len() as int)]
}

/// AlternatingColorer colours a cell with the colour at position
/// `(row + col) mod length` of its list.
pub struct AlternatingColorer {
    colors: Vec<Hsv>,
}

impl View for AlternatingColorer {
    type V = Seq<Hsv>;

    /// The list of colours.
    closed spec fn view(&self) -> Seq<Hsv> {
        self.colors@
    }
}

impl AlternatingColorer {
    /// The invariant of every alternating colorer: it has a colour to give.
    #[verifier::type_invariant]
    pub closed spec fn wf(&self) -> bool {
        self.colors@.len() > 0
    }

    /// Fails when `colors` is empty, and only then.
    pub fn new(colors: Vec<Hsv>) -> (r: Result<Self, ColorerError>)
        ensures
            colors@.len() == 0 ==> r == Err::<Self, ColorerError>(ColorerError::EmptyPalette),
            colors@.len() > 0 ==> (r matches Ok(colorer) && colorer@ == colors@),
    {
        if colors.len() == 0 {
            return Err(ColorerError::EmptyPalette);
        }
        Ok(AlternatingColorer { colors })
    }
}

impl GridColorer for AlternatingColorer {
    open spec fn may_color(&self, params: GridParams, color: Hsv) -> bool {
        color == alternating_color(self@, params.cell.index)
    }

    open spec fn steps_to(&self, next: &Self) -> bool {
        next@ == self@
    }

    fn color(&self, params: GridParams) -> (color: Hsv) {
        proof {
            use_type_invariant(self);
        }
        let sum: u128 = params.cell.index.col as u128 + params.cell.index.row as u128;
        let length: u128 = self.colors.len() as u128;
        proof {
            lemma_mod_pos_bound(sum as int, length as int);
        }
        let position: usize = (sum % length) as usize;
        self.colors[position]
    }

    fn update(&mut self) {
    }
}

/// Two cells get the same colour whenever the sums of their row and column
/// agree modulo the number of colours.
pub proof fn lemma_alternating_is_periodic(colors: Seq<Hsv>, a: CellIndex, b: CellIndex)
    requires
        colors.len() > 0,
        (a.row + a.col) % (colors.len() as int) == (b.row + b.col) % (colors.len() as int),
    ensures
        alternating_color(colors, a) == alternating_color(colors, b),
{
}

} // verus!
