//! Strategies that pick a colour, for a cell of a grid or for nothing in
//! particular. Every strategy answers `color` without changing itself; only
//! `update` moves a strategy on to its next state.

pub mod grid_colorer;
pub mod alternating_colorer;
pub mod interpolated_colorer;
pub mod modulo_colorer;
pub mod noise_colorer;
pub mod palette_colorer;
pub mod rotating_colorer;

pub use grid_colorer::{AnyGridColorer, ColorerError, GridColorer, GridParams};
pub use alternating_colorer::AlternatingColorer;
pub use interpolated_colorer::InterpolatedColorer;
pub use modulo_colorer::ModuloColorer;
pub use noise_colorer::{NoiseColorer, NoisePoint, NoiseQueries, NoiseSamples};
pub use palette_colorer::{PaletteColorer, PastelColorer};
pub use rotating_colorer::RotatingColorer;

use vstd::prelude::*;
use crate::colors::Hsv;

verus! {

/// A colorer that needs to know nothing about where its colour will be used.
pub trait Colorer {
    /// Whether `color` is an answer that `color()` may give in this state.
    spec fn may_color(&self, color: Hsv) -> bool;

    /// Whether `update` leads from this state to `next`.
    spec fn steps_to(&self, next: &Self) -> bool;

    /// Picks a colour. The colorer is left as it was.
    fn color(&self) -> (color: Hsv)
        ensures
            self.may_color(color),
    ;

    /// Moves the colorer on to its next state.
    fn update(&mut self)
        ensures
            old(self).steps_to(final(self)),
    ;
}

/// Any of the colorers of this library that need no cell.
pub enum AnyColorer {
    Palette(PaletteColorer),
    Pastel(PastelColorer),
}

impl Colorer for AnyColorer {
    open spec fn may_color(&self, color: Hsv) -> bool {
        match self {
            AnyColorer::Palette(colorer) => Colorer::may_color(colorer, color),
            AnyColorer::Pastel(colorer) => colorer.may_color(color),
        }
    }

    open spec fn steps_to(&self, next: &Self) -> bool {
        match (self, next) {
            (AnyColorer::Palette(colorer), AnyColorer::Palette(after)) => Colorer::steps_to(
                colorer,
                after,
            ),
            (AnyColorer::Pastel(colorer), AnyColorer::Pastel(after)) => colorer.steps_to(after),
            _ => false,
        }
    }

    fn color(&self) -> (color: Hsv) {
        match self {
            AnyColorer::Palette(colorer) => Colorer::color(colorer),
            AnyColorer::Pastel(colorer) => colorer.color(),
        }
    }

    fn update(&mut self) {
        match self {
            AnyColorer::Palette(colorer) => Colorer::update(colorer),
            AnyColorer::Pastel(colorer) => colorer.update(),
        }
    }
}

} // verus!
