//! Colorers that draw each channel of a colour from a list of candidates.

use vstd::prelude::*;
use crate::colors::{hsv, Hsv};
use crate::random::gen_range;
use super::grid_colorer::{ColorerError, GridColorer, GridParams};
use super::Colorer;

verus! {

/// PaletteColorer draws a hue, a saturation and a value, each independently
/// and uniformly from a list of its own.
pub struct PaletteColorer {
    hues: Vec<i32>,
    saturations: Vec<i32>,
    values: Vec<i32>,
}

impl PaletteColorer {
    /// The candidate hues.
    pub closed spec fn hues(&self) -> Seq<i32> {
        self.hues@
    }

    /// The candidate saturations.
    pub closed spec fn saturations(&self) -> Seq<i32> {
        self.saturations@
    }

    /// The candidate values.
    pub closed spec fn values(&self) -> Seq<i32> {
        self.values@
    }

    /// The invariant of every palette: each of the three lists holds at
    /// least one candidate.
    #[verifier::type_invariant]
    pub closed spec fn wf(&self) -> bool {
        &&& self.hues@.len() > 0
        &&& self.saturations@.len() > 0
        &&& self.values@.len() > 0
    }

    /// The colour made of the candidates at the three given positions.
    pub open spec fn spec_color_at(
        &self,
        hue_idx: int,
        saturations_idx: int,
        values_idx: int,
    ) -> Hsv {
        Hsv {
            hue: self.hues()[hue_idx],
            saturation: self.saturations()[saturations_idx],
            value: self.values()[values_idx],
        }
    }

    /// Whether `color` can be put together from the candidates.
    pub open spec fn may_pick(&self, color: Hsv) -> bool {
        exists|hue_idx: int, saturations_idx: int, values_idx: int|
            {
                &&& 0 <= hue_idx < self.hues().len()
                &&& 0 <= saturations_idx < self.saturations().len()
                &&& 0 <= values_idx < self.values().len()
                &&& color == #[trigger] self.spec_color_at(hue_idx, saturations_idx, values_idx)
            }
    }

    /// Fails when one of the three lists is empty, and only then.
    pub fn new(hues: Vec<i32>, saturations: Vec<i32>, values: Vec<i32>) -> (r: Result<
        Self,
        ColorerError,
    >)
        ensures
            (hues@.len() == 0 || saturations@.len() == 0 || values@.len() == 0) ==> r == Err::<
                Self,
                ColorerError,
            >(ColorerError::EmptyPalette),
            (hues@.len() > 0 && saturations@.len() > 0 && values@.len() > 0) ==> (r matches Ok(
                colorer,
            ) && {
                &&& colorer.hues() == hues@
                &&& colorer.saturations() == saturations@
                &&& colorer.values() == values@
            }),
    {
        if hues.len() == 0 || saturations.len() == 0 || values.len() == 0 {
            return Err(ColorerError::EmptyPalette);
        }
        Ok(PaletteColorer { hues, saturations, values })
    }

    fn pick(&self, hue_idx: usize, saturations_idx: usize, values_idx: usize) -> (color: Hsv)
        requires
            hue_idx < self.hues().len(),
            saturations_idx < self.saturations().len(),
            values_idx < self.values().len(),
        ensures
            color == self.spec_color_at(hue_idx as int, saturations_idx as int, values_idx as int),
    {
        hsv(self.hues[hue_idx], self.saturations[saturations_idx], self.values[values_idx])
    }

    /// The colour made of the candidates at the three given positions, or
    /// `None` when one of the lists has no such position.
    pub fn color_at(&self, hue_idx: usize, saturations_idx: usize, values_idx: usize) -> (color:
        Option<Hsv>)
        ensures
            (hue_idx < self.hues().len() && saturations_idx < self.saturations().len()
                && values_idx < self.values().len()) ==> color == Some(
                self.spec_color_at(hue_idx as int, saturations_idx as int, values_idx as int),
            ),
            !(hue_idx < self.hues().len() && saturations_idx < self.saturations().len()
                && values_idx < self.values().len()) ==> color.is_none(),
    {
        if hue_idx < self.hues.len() && saturations_idx < self.saturations.len() && values_idx
            < self.values.len() {
            Some(self.pick(hue_idx, saturations_idx, values_idx))
        } else {
            None
        }
    }

    /// Draws three positions and returns the colour made of the candidates
    /// found there.
    pub fn color(&self) -> (color: Hsv)
        ensures
            self.may_pick(color),
    {
        proof {
            use_type_invariant(self);
        }
        let hue_idx: usize = gen_range(0, self.hues.len() as u64) as usize;
        let saturations_idx: usize = gen_range(0, self.saturations.len() as u64) as usize;
        let values_idx: usize = gen_range(0, self.values.len() as u64) as usize;
        self.pick(hue_idx, saturations_idx, values_idx)
    }
}

impl GridColorer for PaletteColorer {
    open spec fn may_color(&self, params: GridParams, color: Hsv) -> bool {
        self.may_pick(color)
    }

    open spec fn steps_to(&self, next: &Self) -> bool {
        &&& next.hues() == self.hues()
        &&& next.saturations() == self.saturations()
        &&& next.values() == self.values()
    }

    fn color(&self, _params: GridParams) -> (color: Hsv) {
        PaletteColorer::color(self)
    }

    fn update(&mut self) {
    }
}

impl Colorer for PaletteColorer {
    open spec fn may_color(&self, color: Hsv) -> bool {
        self.may_pick(color)
    }

    open spec fn steps_to(&self, next: &Self) -> bool {
        &&& next.hues() == self.hues()
        &&& next.saturations() == self.saturations()
        &&& next.values() == self.values()
    }

    fn color(&self) -> (color: Hsv) {
        PaletteColorer::color(self)
    }

    fn update(&mut self) {
    }
}

/// A palette with a single candidate in each list can only give one colour.
pub proof fn lemma_single_candidates_give_one_color(colorer: PaletteColorer, color: Hsv)
    requires
        colorer.hues().len() == 1,
        colorer.saturations().len() == 1,
        colorer.values().len() == 1,
        colorer.may_pick(color),
    ensures
        color == colorer.spec_color_at(0, 0, 0),
{
}

/// How many hues a pastel palette holds.
pub const PASTEL_HUES: usize = 360;

/// The saturation of every pastel colour.
pub const PASTEL_SATURATION: i32 = 600;

/// The value of every pastel colour.
pub const PASTEL_VALUE: i32 = 1000;

/// The hues of the pastel palette: the colour wheel in 360 equal steps.
pub open spec fn pastel_hues() -> Seq<i32> {
    Seq::new(PASTEL_HUES as nat, |n: int| (n * 1000 / 360) as i32)
}

/// PastelColorer draws from a palette of light, moderately saturated colours
/// of every hue.
pub struct PastelColorer {
    colorer: PaletteColorer,
}

impl PastelColorer {
    /// The palette that the colours are drawn from.
    pub closed spec fn palette(&self) -> PaletteColorer {
        self.colorer
    }

    pub fn new() -> (colorer: Self)
        ensures
            colorer.palette().hues() == pastel_hues(),
            colorer.palette().saturations() == seq![PASTEL_SATURATION],
            colorer.palette().values() == seq![PASTEL_VALUE],
    {
        let mut hues: Vec<i32> = Vec::new();
        let mut n: i32 = 0;
        while n < 360
            invariant
                0 <= n <= 360,
                hues@.len() == n,
                forall|k: int| 0 <= k < n ==> hues@[k] == (k * 1000 / 360) as i32,
            decreases 360 - n,
        {
            hues.push(n * 1000 / 360);
            n = n + 1;
        }
        assert(hues@ =~= pastel_hues());
        let mut saturations: Vec<i32> = Vec::new();
        saturations.push(PASTEL_SATURATION);
        let mut values: Vec<i32> = Vec::new();
        values.push(PASTEL_VALUE);
        assert(saturations@ =~= seq![PASTEL_SATURATION]);
        assert(values@ =~= seq![PASTEL_VALUE]);
        PastelColorer { colorer: PaletteColorer { hues, saturations, values } }
    }
}

impl PastelColorer {
    /// The palette that the colours are drawn from, for use where a
    /// palette is asked for.
    pub fn into_palette(self) -> (palette: PaletteColorer)
        ensures
            palette == self.palette(),
    {
        self.colorer
    }
}

impl Colorer for PastelColorer {
    open spec fn may_color(&self, color: Hsv) -> bool {
        self.palette().may_pick(color)
    }

    open spec fn steps_to(&self, next: &Self) -> bool {
        Colorer::steps_to(&self.palette(), &next.palette())
    }

    fn color(&self) -> (color: Hsv) {
        PaletteColorer::color(&self.colorer)
    }

    fn update(&mut self) {
    }
}

impl Default for PastelColorer {
    fn default() -> (colorer: Self)
        ensures
            colorer.palette().hues() == pastel_hues(),
            colorer.palette().saturations() == seq![PASTEL_SATURATION],
            colorer.palette().values() == seq![PASTEL_VALUE],
    {
        PastelColorer::new()
    }
}

} // verus!
