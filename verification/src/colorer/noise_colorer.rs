//! A colorer whose colour drifts with a field of coherent noise.
//!
//! Sampling the noise is left to the caller. The colorer says at which three
//! points of the field it wants samples, and turns the samples it is handed
//! into a colour: `queries`, then `color_from_noise`, then `advance` when the
//! colour is to become the new starting point.

use vstd::prelude::*;
use crate::colors::Hsv;
use crate::geom::Vec2;
use crate::units::{remainder, saturate, saturate_i32, trunc_div};
use super::grid_colorer::{ColorerError, GridParams};

verus! {

/// A point of a three-dimensional noise field. `x` and `y` count whole steps;
/// `z` is measured in `UNIT`s.
#[derive(Clone, Copy, Debug, PartialEq, Eq, Structural)]
pub struct NoisePoint {
    pub x: u64,
    pub y: u64,
    pub z: i64,
}

/// The three points at which a noise colorer wants the field sampled, one
/// for each channel.
#[derive(Clone, Copy, Debug, PartialEq, Eq, Structural)]
pub struct NoiseQueries {
    pub hue: NoisePoint,
    pub saturation: NoisePoint,
    pub value: NoisePoint,
}

/// Three samples of the noise field, one for each channel, in `UNIT`s.
#[derive(Clone, Copy, Debug, PartialEq, Eq, Structural)]
pub struct NoiseSamples {
    pub hue: i32,
    pub saturation: i32,
    pub value: i32,
}

/// How far along `z` the saturation's point lies from its amount, so that
/// the channels do not move together although they share `x` and `y`: a
/// thousand `UNIT`s.
pub const SATURATION_OFFSET: i64 = 1_000_000;

/// How far along `z` the value's point lies from its amount: ten thousand
/// `UNIT`s.
pub const VALUE_OFFSET: i64 = 10_000_000;

/// Samples are divided by this before they are added to a channel, to keep
/// the colour from jumping.
pub const NOISE_DAMPING: i32 = 100;

/// The three points that belong to the cell at column `col` and row `row`
/// when the colour is `current`. All three lie above the cell; their
/// heights are the current amounts of the three channels, moved apart by
/// large offsets.
pub open spec fn noise_queries(col: usize, row: usize, current: Hsv) -> NoiseQueries {
    NoiseQueries {
        hue: NoisePoint { x: col as u64, y: row as u64, z: current.hue as i64 },
        saturation: NoisePoint {
            x: col as u64,
            y: row as u64,
            z: (current.saturation + SATURATION_OFFSET) as i64,
        },
        value: NoisePoint {
            x: col as u64,
            y: row as u64,
            z: (current.value + VALUE_OFFSET) as i64,
        },
    }
}

/// `hue` brought into the half-open range from `lower` to `upper` by adding
/// or taking away whole lengths of the range. An empty range gives `lower`.
pub open spec fn wrap_hue(hue: int, lower: int, upper: int) -> int {
    if upper > lower {
        lower + (hue - lower) % (upper - lower)
    } else {
        lower
    }
}

/// The colour that `current` drifts to under `samples`: every channel moves
/// by a hundredth of its sample, the hue wraps around inside its bounds, and
/// saturation and value stop at the ends of the range of an `i32`.
pub open spec fn drifted_color(current: Hsv, hue_bound: Vec2, samples: NoiseSamples) -> Hsv {
    Hsv {
        hue: wrap_hue(
            current.hue + trunc_div(samples.hue as int, NOISE_DAMPING as int),
            hue_bound.x as int,
            hue_bound.y as int,
        ) as i32,
        saturation: saturate(
            current.saturation + trunc_div(samples.saturation as int, NOISE_DAMPING as int),
        ) as i32,
        value: saturate(
            current.value + trunc_div(samples.value as int, NOISE_DAMPING as int),
        ) as i32,
    }
}

/// A wrapped hue lies inside its bounds.
pub proof fn lemma_wrap_hue_in_bounds(hue: int, lower: int, upper: int)
    requires
        lower <= upper,
    ensures
        lower <= wrap_hue(hue, lower, upper) <= upper,
        lower < upper ==> wrap_hue(hue, lower, upper) < upper,
        lower <= hue < upper ==> wrap_hue(hue, lower, upper) == hue,
{
    if upper > lower {
        vstd::arithmetic::div_mod::lemma_mod_bound(hue - lower, upper - lower);
        if lower <= hue < upper {
            vstd::arithmetic::div_mod::lemma_small_mod(
                (hue - lower) as nat,
                (upper - lower) as nat,
            );
        }
    }
}

/// NoiseColorer starts from a base colour and lets noise move the colour
/// around, the hue only within the bounds `hue_bound.x` and `hue_bound.y`.
pub struct NoiseColorer {
    base_color: Hsv,
    current_color: Hsv,
    hue_bound: Vec2,
}

impl NoiseColorer {
    /// The invariant of every noise colorer: the hues of its base colour and
    /// of its current colour lie within the bounds.
    #[verifier::type_invariant]
    pub closed spec fn wf(&self) -> bool {
        &&& self.hue_bound.x <= self.base_color.hue <= self.hue_bound.y
        &&& self.hue_bound.x <= self.current_color.hue <= self.hue_bound.y
    }

    pub closed spec fn spec_base_color(&self) -> Hsv {
        self.base_color
    }

    pub closed spec fn spec_current_color(&self) -> Hsv {
        self.current_color
    }

    pub closed spec fn spec_hue_bound(&self) -> Vec2 {
        self.hue_bound
    }

    /// Fails when the hue of `base_color` lies below `hue_bound.x` or above
    /// `hue_bound.y`, and only then. The current colour starts out as the
    /// base colour.
    pub fn new(base_color: Hsv, hue_bound: Vec2) -> (r: Result<Self, ColorerError>)
        ensures
            (base_color.hue < hue_bound.x || base_color.hue > hue_bound.y) ==> r == Err::<
                Self,
                ColorerError,
            >(ColorerError::HueOutOfBounds),
            (hue_bound.x <= base_color.hue <= hue_bound.y) ==> (r matches Ok(colorer) && {
                &&& colorer.wf()
                &&& colorer.spec_base_color() == base_color
                &&& colorer.spec_current_color() == base_color
                &&& colorer.spec_hue_bound() == hue_bound
            }),
    {
        if base_color.hue < hue_bound.x || base_color.hue > hue_bound.y {
            return Err(ColorerError::HueOutOfBounds);
        }
        Ok(NoiseColorer { base_color, current_color: base_color, hue_bound })
    }

    /// The colour that the colorer was built with.
    #[verifier::when_used_as_spec(spec_base_color)]
    pub fn base_color(&self) -> (color: Hsv)
        ensures
            color == self.spec_base_color(),
    {
        self.base_color
    }

    /// The colour that the next drift starts from.
    #[verifier::when_used_as_spec(spec_current_color)]
    pub fn current_color(&self) -> (color: Hsv)
        ensures
            color == self.spec_current_color(),
    {
        self.current_color
    }

    /// The bounds of the hue: `x` is the lower and `y` the upper one.
    #[verifier::when_used_as_spec(spec_hue_bound)]
    pub fn hue_bound(&self) -> (bound: Vec2)
        ensures
            bound == self.spec_hue_bound(),
    {
        self.hue_bound
    }

    /// The points at which the noise field is to be sampled for the cell in
    /// `params`. The three channels share the cell's column and row; each
    /// brings its own current amount as the third coordinate, and large
    /// offsets keep the three apart.
    pub fn queries(&self, params: GridParams) -> (queries: NoiseQueries)
        ensures
            queries == noise_queries(
                params.cell.index.col,
                params.cell.index.row,
                self.spec_current_color(),
            ),
    {
        let col: u64 = params.cell.index.col as u64;
        let row: u64 = params.cell.index.row as u64;
        NoiseQueries {
            hue: NoisePoint { x: col, y: row, z: self.current_color.hue as i64 },
            saturation: NoisePoint {
                x: col,
                y: row,
                z: self.current_color.saturation as i64 + SATURATION_OFFSET,
            },
            value: NoisePoint { x: col, y: row, z: self.current_color.value as i64 + VALUE_OFFSET },
        }
    }

    /// The colour that the current colour drifts to under `samples`. The
    /// colorer is left as it was.
    pub fn color_from_noise(&self, samples: NoiseSamples) -> (color: Hsv)
        ensures
            color == drifted_color(self.spec_current_color(), self.spec_hue_bound(), samples),
            self.spec_hue_bound().x <= color.hue <= self.spec_hue_bound().y,
    {
        proof {
            use_type_invariant(self);
        }
        let hue_delta: i64 = (samples.hue / NOISE_DAMPING) as i64;
        let saturation_delta: i64 = (samples.saturation / NOISE_DAMPING) as i64;
        let value_delta: i64 = (samples.value / NOISE_DAMPING) as i64;

        // Move the hue, but within its range only.
        let lower: i64 = self.hue_bound.x as i64;
        let upper: i64 = self.hue_bound.y as i64;
        let range_size: i64 = upper - lower;
        proof {
            lemma_wrap_hue_in_bounds(
                self.current_color.hue + hue_delta,
                lower as int,
                upper as int,
            );
        }
        let new_hue: i64 = if range_size > 0 {
            let moved: i64 = self.current_color.hue as i64 + hue_delta - lower;
            remainder(moved, range_size) + lower
        } else {
            lower
        };

        Hsv {
            hue: new_hue as i32,
            saturation: saturate_i32(self.current_color.saturation as i64 + saturation_delta),
            value: saturate_i32(self.current_color.value as i64 + value_delta),
        }
    }

    /// Makes the colour that the current colour drifts to under `samples`
    /// the new current colour.
    pub fn advance(&mut self, samples: NoiseSamples)
        ensures
            final(self).wf(),
            final(self).spec_current_color() == drifted_color(
                old(self).spec_current_color(),
                old(self).spec_hue_bound(),
                samples,
            ),
            final(self).spec_base_color() == old(self).spec_base_color(),
            final(self).spec_hue_bound() == old(self).spec_hue_bound(),
    {
        proof {
            use_type_invariant(&*self);
        }
        let next = self.color_from_noise(samples);
        self.current_color = next;
    }
}

} // verus!
