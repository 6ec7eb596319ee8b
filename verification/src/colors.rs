//! Colours as fixed-point triples, and random colours within a range.
//!
//! Every channel is measured in `UNIT`s: a hue of `UNIT` is one full turn
//! around the colour wheel, and a saturation, value or lightness of `UNIT` is
//! the full amount.

use vstd::prelude::*;
use crate::random::random_range;
use crate::units::{lemma_lerp_between, lerp, lerp_i32, UNIT};

verus! {

/// A colour given by hue, saturation and value.
#[derive(Clone, Copy, Debug, PartialEq, Eq, Structural)]
pub struct Hsv {
    pub hue: i32,
    pub saturation: i32,
    pub value: i32,
}

/// A colour given by hue, saturation and lightness.
#[derive(Clone, Copy, Debug, PartialEq, Eq, Structural)]
pub struct Hsl {
    pub hue: i32,
    pub saturation: i32,
    pub lightness: i32,
}

/// Shorthand for building an [`Hsv`].
pub fn hsv(hue: i32, saturation: i32, value: i32) -> (color: Hsv)
    ensures
        color == (Hsv { hue, saturation, value }),
{
    Hsv { hue, saturation, value }
}

/// Half saturation.
pub const DEFAULT_SATURATION: i32 = 500;

/// Half lightness.
pub const DEFAULT_LIGHTNESS: i32 = 500;

/// The colour with default saturation and lightness whose hue lies `draw`
/// thousandths of the way from `hue_min` to `hue_max`.
pub open spec fn spec_color_in_hue_range(hue_min: i32, hue_max: i32, draw: i32) -> Hsl {
    Hsl {
        hue: lerp(hue_min as int, hue_max as int, draw as int, UNIT as int) as i32,
        saturation: DEFAULT_SATURATION,
        lightness: DEFAULT_LIGHTNESS,
    }
}

/// The colour with default lightness whose hue lies `hue_draw` thousandths of
/// the way from `hue_min` to `hue_max`, and whose saturation lies
/// `saturation_draw` thousandths of the way from `saturation_min` to
/// `saturation_max`.
pub open spec fn spec_color_in_range(
    hue_min: i32,
    hue_max: i32,
    saturation_min: i32,
    saturation_max: i32,
    hue_draw: i32,
    saturation_draw: i32,
) -> Hsl {
    Hsl {
        hue: lerp(hue_min as int, hue_max as int, hue_draw as int, UNIT as int) as i32,
        saturation: lerp(
            saturation_min as int,
            saturation_max as int,
            saturation_draw as int,
            UNIT as int,
        ) as i32,
        lightness: DEFAULT_LIGHTNESS,
    }
}

/// Maps a draw from `[0, UNIT)` to a hue between `hue_min` and `hue_max`;
/// saturation and lightness are fixed to their defaults.
pub fn color_in_hue_range(hue_min: i32, hue_max: i32, draw: i32) -> (color: Hsl)
    ensures
        color == spec_color_in_hue_range(hue_min, hue_max, draw),
{
    let position: usize = if draw <= 0 {
        0
    } else {
        draw as usize
    };
    Hsl {
        hue: lerp_i32(hue_min, hue_max, position, UNIT as usize),
        saturation: DEFAULT_SATURATION,
        lightness: DEFAULT_LIGHTNESS,
    }
}

/// Maps two draws from `[0, UNIT)` to a hue between `hue_min` and `hue_max`
/// and a saturation between `saturation_min` and `saturation_max`; lightness
/// is fixed to its default.
pub fn color_in_range(
    hue_min: i32,
    hue_max: i32,
    saturation_min: i32,
    saturation_max: i32,
    hue_draw: i32,
    saturation_draw: i32,
) -> (color: Hsl)
    ensures
        color == spec_color_in_range(
            hue_min,
            hue_max,
            saturation_min,
            saturation_max,
            hue_draw,
            saturation_draw,
        ),
{
    let hue_position: usize = if hue_draw <= 0 {
        0
    } else {
        hue_draw as usize
    };
    let saturation_position: usize = if saturation_draw <= 0 {
        0
    } else {
        saturation_draw as usize
    };
    Hsl {
        hue: lerp_i32(hue_min, hue_max, hue_position, UNIT as usize),
        saturation: lerp_i32(saturation_min, saturation_max, saturation_position, UNIT as usize),
        lightness: DEFAULT_LIGHTNESS,
    }
}

/// Picks a hue between `hue_min` and `hue_max` with a uniformly drawn
/// position; saturation and lightness are fixed to their defaults.
pub fn random_color_in_hue_range(hue_min: i32, hue_max: i32) -> (color: Hsl)
    ensures
        exists|draw: i32|
            0 <= draw < UNIT && color == #[trigger] spec_color_in_hue_range(hue_min, hue_max, draw),
        hue_min <= hue_max ==> hue_min <= color.hue <= hue_max,
        hue_max <= hue_min ==> hue_max <= color.hue <= hue_min,
        color.saturation == DEFAULT_SATURATION,
        color.lightness == DEFAULT_LIGHTNESS,
{
    let draw: i32 = random_range(0, UNIT);
    proof {
        lemma_lerp_between(hue_min as int, hue_max as int, draw as int, UNIT as int);
    }
    color_in_hue_range(hue_min, hue_max, draw)
}

/// Picks a hue between `hue_min` and `hue_max` and a saturation between
/// `saturation_min` and `saturation_max`, each with a uniformly drawn
/// position of its own; lightness is fixed to its default.
pub fn random_color_in_range(
    hue_min: i32,
    hue_max: i32,
    saturation_min: i32,
    saturation_max: i32,
) -> (color: Hsl)
    ensures
        exists|hue_draw: i32, saturation_draw: i32|
            0 <= hue_draw < UNIT && 0 <= saturation_draw < UNIT && color
                == #[trigger] spec_color_in_range(
                hue_min,
                hue_max,
                saturation_min,
                saturation_max,
                hue_draw,
                saturation_draw,
            ),
        hue_min <= hue_max ==> hue_min <= color.hue <= hue_max,
        hue_max <= hue_min ==> hue_max <= color.hue <= hue_min,
        saturation_min <= saturation_max ==> saturation_min <= color.saturation <= saturation_max,
        saturation_max <= saturation_min ==> saturation_max <= color.saturation <= saturation_min,
        color.lightness == DEFAULT_LIGHTNESS,
{
    let hue_draw: i32 = random_range(0, UNIT);
    let saturation_draw: i32 = random_range(0, UNIT);
    proof {
        lemma_lerp_between(hue_min as int, hue_max as int, hue_draw as int, UNIT as int);
        lemma_lerp_between(
            saturation_min as int,
            saturation_max as int,
            saturation_draw as int,
            UNIT as int,
        );
    }
    color_in_range(hue_min, hue_max, saturation_min, saturation_max, hue_draw, saturation_draw)
}

} // verus!
