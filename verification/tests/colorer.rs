use std::collections::VecDeque;

use rusty_visuals::colorer::palette_colorer::{PASTEL_SATURATION, PASTEL_VALUE};
use rusty_visuals::colorer::{
    AlternatingColorer, AnyColorer, AnyGridColorer, Colorer, ColorerError, GridColorer, GridParams,
    InterpolatedColorer, ModuloColorer, NoiseColorer, NoisePoint, NoiseSamples, PaletteColorer,
    PastelColorer, RotatingColorer,
};
use rusty_visuals::colors::{
    color_in_hue_range, color_in_range, hsv, random_color_in_hue_range, random_color_in_range,
    Hsl, Hsv, DEFAULT_LIGHTNESS, DEFAULT_SATURATION,
};
use rusty_visuals::geom::{vec2, Vec2};
use rusty_visuals::grid::{Cell, CellIndex};
use rusty_visuals::units::{lerp_i32, UNIT};

fn cell_at(row: usize, col: usize) -> Cell {
    Cell::new(vec2(1, 1), vec2(0, 0), CellIndex { row, col })
}

fn color_of<C: GridColorer>(colorer: &C, row: usize, col: usize, total: &CellIndex) -> Hsv {
    let cell = cell_at(row, col);
    colorer.color(GridParams { cell: &cell, total_num_cells: total })
}

#[test]
fn alternating_colorer_follows_the_diagonals() {
    let red = hsv(0, 1000, 1000);
    let green = hsv(333, 1000, 1000);
    let blue = hsv(666, 1000, 1000);
    let colorer = AlternatingColorer::new(vec![red, green, blue]).unwrap();
    let total = CellIndex { row: 4, col: 4 };
    assert_eq!(color_of(&colorer, 0, 0, &total), red);
    assert_eq!(color_of(&colorer, 0, 1, &total), green);
    assert_eq!(color_of(&colorer, 1, 0, &total), green);
    assert_eq!(color_of(&colorer, 1, 1, &total), blue);
    assert_eq!(color_of(&colorer, 2, 1, &total), red);
    assert_eq!(color_of(&colorer, 3, 3, &total), red);
}

#[test]
fn alternating_colorer_is_periodic() {
    let colors: Vec<Hsv> = (0..5).map(|n| hsv(n * 100, 500, 500)).collect();
    let colorer = AlternatingColorer::new(colors.clone()).unwrap();
    let total = CellIndex { row: 20, col: 20 };
    for row in 0..20 {
        for col in 0..20 {
            let here = color_of(&colorer, row, col, &total);
            assert_eq!(here, colors[(row + col) % 5]);
            assert_eq!(here, color_of(&colorer, col, row, &total));
            assert_eq!(here, color_of(&colorer, row + 5, col, &total));
            assert_eq!(here, color_of(&colorer, row + 2, col + 3, &total));
        }
    }
}

#[test]
fn alternating_colorer_copes_with_the_largest_indices() {
    let colors = vec![hsv(1, 1, 1), hsv(2, 2, 2), hsv(3, 3, 3)];
    let colorer = AlternatingColorer::new(colors.clone()).unwrap();
    let total = CellIndex { row: usize::MAX, col: usize::MAX };
    let expected = ((usize::MAX as u128 + usize::MAX as u128) % 3) as usize;
    assert_eq!(color_of(&colorer, usize::MAX, usize::MAX, &total), colors[expected]);
}

#[test]
fn alternating_colorer_needs_colors() {
    assert_eq!(AlternatingColorer::new(Vec::new()).err(), Some(ColorerError::EmptyPalette));
}

#[test]
fn alternating_colorer_update_changes_nothing() {
    let mut colorer = AlternatingColorer::new(vec![hsv(1, 2, 3), hsv(4, 5, 6)]).unwrap();
    let total = CellIndex { row: 2, col: 2 };
    let before = color_of(&colorer, 0, 1, &total);
    colorer.update();
    assert_eq!(color_of(&colorer, 0, 1, &total), before);
}

#[test]
fn interpolated_colorer_starts_at_the_start() {
    let start = hsv(0, 1000, 1000);
    let end = hsv(166, 200, 700);
    let colorer = InterpolatedColorer::new((start, end));
    let total = CellIndex { row: 7, col: 9 };
    assert_eq!(color_of(&colorer, 0, 0, &total), start);
}

#[test]
fn interpolated_colorer_approaches_the_end_along_the_first_row() {
    let start = hsv(0, 1000, 400);
    let end = hsv(400, 0, 400);
    let colorer = InterpolatedColorer::new((start, end));
    let total = CellIndex { row: 3, col: 10 };
    assert_eq!(color_of(&colorer, 0, 5, &total), hsv(200, 500, 400));
    assert_eq!(color_of(&colorer, 0, 9, &total), hsv(360, 100, 400));
    // One past the last column the end is reached.
    assert_eq!(color_of(&colorer, 0, 10, &total), end);
    assert_eq!(color_of(&colorer, 0, 11, &total), end);
}

#[test]
fn interpolated_colorer_is_a_staircase() {
    let start = hsv(0, 0, 0);
    let end = hsv(300, 90, 9);
    let colorer = InterpolatedColorer::new((start, end));
    let total = CellIndex { row: 3, col: 3 };
    // Row 1 starts a third of the way along the base gradient and spans as
    // much as the base gradient does.
    assert_eq!(color_of(&colorer, 1, 0, &total), hsv(100, 30, 3));
    assert_eq!(color_of(&colorer, 1, 1, &total), hsv(200, 60, 6));
    assert_eq!(color_of(&colorer, 1, 2, &total), hsv(300, 90, 9));
    assert_eq!(color_of(&colorer, 2, 0, &total), hsv(200, 60, 6));
    assert_eq!(color_of(&colorer, 2, 2, &total), hsv(400, 120, 12));
    assert_eq!(color_of(&colorer, 2, 3, &total), hsv(500, 150, 15));
}

#[test]
fn interpolated_colorer_takes_the_short_way_round_the_wheel() {
    // From 350 degrees to 10 degrees the way leads through 0 degrees.
    let colorer = InterpolatedColorer::new((hsv(972, 0, 0), hsv(28, 0, 0)));
    let total = CellIndex { row: 1, col: 4 };
    assert_eq!(color_of(&colorer, 0, 0, &total).hue, 972);
    assert_eq!(color_of(&colorer, 0, 1, &total).hue, 986);
    assert_eq!(color_of(&colorer, 0, 2, &total).hue, 1000);
    assert_eq!(color_of(&colorer, 0, 3, &total).hue, 1014);
    assert_eq!(color_of(&colorer, 0, 4, &total).hue, 28);
    // And back from 10 degrees to 350 degrees as well.
    let colorer = InterpolatedColorer::new((hsv(28, 0, 0), hsv(972, 0, 0)));
    assert_eq!(color_of(&colorer, 0, 1, &total).hue, 14);
    assert_eq!(color_of(&colorer, 0, 2, &total).hue, 0);
    assert_eq!(color_of(&colorer, 0, 3, &total).hue, -14);
    // Half a turn is walked forwards, and more than half a turn backwards.
    let colorer = InterpolatedColorer::new((hsv(0, 0, 0), hsv(500, 0, 0)));
    assert_eq!(color_of(&colorer, 0, 2, &total).hue, 250);
    let colorer = InterpolatedColorer::new((hsv(0, 0, 0), hsv(600, 0, 0)));
    assert_eq!(color_of(&colorer, 0, 2, &total).hue, -200);
    // Whole turns between the two hues do not count.
    let colorer = InterpolatedColorer::new((hsv(100, 0, 0), hsv(3300, 0, 0)));
    assert_eq!(color_of(&colorer, 0, 2, &total).hue, 200);
    let colorer = InterpolatedColorer::new((hsv(100, 0, 0), hsv(-2700, 0, 0)));
    assert_eq!(color_of(&colorer, 0, 2, &total).hue, 200);
}

#[test]
fn interpolated_colorer_keeps_the_short_way_in_every_row() {
    let colorer = InterpolatedColorer::new((hsv(900, 0, 0), hsv(100, 0, 0)));
    let total = CellIndex { row: 2, col: 2 };
    // Row 1 starts half way along the short way, at a full turn, and goes
    // on for as long as the base gradient does.
    assert_eq!(color_of(&colorer, 1, 0, &total).hue, 1000);
    assert_eq!(color_of(&colorer, 1, 1, &total).hue, 1100);
}

#[test]
fn interpolated_colorer_rounds_toward_the_start() {
    let colorer = InterpolatedColorer::new((hsv(0, 10, -10), hsv(10, 0, 0)));
    let total = CellIndex { row: 1, col: 3 };
    assert_eq!(color_of(&colorer, 0, 1, &total), hsv(3, 7, -7));
    assert_eq!(color_of(&colorer, 0, 2, &total), hsv(6, 4, -4));
}

#[test]
fn interpolated_colorer_stops_at_the_ends_of_the_range() {
    let colorer =
        InterpolatedColorer::new((hsv(i32::MIN, 0, i32::MAX), hsv(i32::MAX, 0, i32::MIN)));
    let total = CellIndex { row: 2, col: 2 };
    assert_eq!(color_of(&colorer, 2, 2, &total), hsv(i32::MAX, 0, i32::MIN));
    assert_eq!(color_of(&colorer, 0, 0, &total), hsv(i32::MIN, 0, i32::MAX));
}

#[test]
fn interpolated_colorer_of_an_empty_grid_gives_the_start() {
    let start = hsv(5, 6, 7);
    let colorer = InterpolatedColorer::new((start, hsv(50, 60, 70)));
    let total = CellIndex { row: 0, col: 0 };
    assert_eq!(color_of(&colorer, 3, 4, &total), start);
}

#[test]
fn interpolation_between_integers() {
    assert_eq!(lerp_i32(0, 100, 0, 4), 0);
    assert_eq!(lerp_i32(0, 100, 1, 4), 25);
    assert_eq!(lerp_i32(0, 100, 4, 4), 100);
    assert_eq!(lerp_i32(0, 100, 9, 4), 100);
    assert_eq!(lerp_i32(100, 0, 1, 3), 67);
    assert_eq!(lerp_i32(-100, 0, 1, 3), -67);
    assert_eq!(lerp_i32(7, 9, 1, 0), 7);
    assert_eq!(lerp_i32(i32::MIN, i32::MAX, usize::MAX - 1, usize::MAX), i32::MAX - 1);
}

#[test]
fn single_choice_palette_is_deterministic() {
    let colorer = PaletteColorer::new(vec![500], vec![500], vec![500]).unwrap();
    let total = CellIndex { row: 1, col: 1 };
    for _ in 0..100 {
        assert_eq!(colorer.color(), hsv(500, 500, 500));
        assert_eq!(Colorer::color(&colorer), hsv(500, 500, 500));
        assert_eq!(color_of(&colorer, 0, 0, &total), hsv(500, 500, 500));
    }
}

#[test]
fn palette_colorer_draws_from_its_candidates() {
    let hues = vec![0, 100, 200];
    let saturations = vec![300, 400];
    let values = vec![900];
    let colorer =
        PaletteColorer::new(hues.clone(), saturations.clone(), values.clone()).unwrap();
    let mut seen_hues: Vec<i32> = Vec::new();
    for _ in 0..500 {
        let color = colorer.color();
        assert!(hues.contains(&color.hue));
        assert!(saturations.contains(&color.saturation));
        assert_eq!(color.value, 900);
        if !seen_hues.contains(&color.hue) {
            seen_hues.push(color.hue);
        }
    }
    assert_eq!(seen_hues.len(), 3);
}

#[test]
fn palette_colorer_color_at_picks_by_position() {
    let colorer = PaletteColorer::new(vec![1, 2, 3], vec![10, 20], vec![100]).unwrap();
    assert_eq!(colorer.color_at(0, 0, 0), Some(hsv(1, 10, 100)));
    assert_eq!(colorer.color_at(2, 1, 0), Some(hsv(3, 20, 100)));
    assert_eq!(colorer.color_at(3, 1, 0), None);
    assert_eq!(colorer.color_at(2, 2, 0), None);
    assert_eq!(colorer.color_at(2, 1, 1), None);
}

#[test]
fn palette_colorer_needs_candidates() {
    let empty = Some(ColorerError::EmptyPalette);
    assert_eq!(PaletteColorer::new(vec![], vec![1], vec![1]).err(), empty);
    assert_eq!(PaletteColorer::new(vec![1], vec![], vec![1]).err(), empty);
    assert_eq!(PaletteColorer::new(vec![1], vec![1], vec![]).err(), empty);
    assert!(PaletteColorer::new(vec![1], vec![1], vec![1]).is_ok());
}

#[test]
fn pastel_colorer_gives_light_colors_of_any_hue() {
    let colorer = PastelColorer::new();
    for _ in 0..200 {
        let color = colorer.color();
        assert!(0 <= color.hue && color.hue < UNIT);
        assert!((0..360).any(|n| n * 1000 / 360 == color.hue));
        assert_eq!(color.saturation, PASTEL_SATURATION);
        assert_eq!(color.value, PASTEL_VALUE);
    }
    let colorer = PastelColorer::default();
    assert_eq!(colorer.color().saturation, 600);
    assert_eq!(colorer.color().value, 1000);
    let palette = PastelColorer::new().into_palette();
    assert_eq!(palette.color_at(0, 0, 0), Some(hsv(0, 600, 1000)));
    assert_eq!(palette.color_at(180, 0, 0), Some(hsv(500, 600, 1000)));
    assert_eq!(palette.color_at(359, 0, 0), Some(hsv(997, 600, 1000)));
    assert_eq!(palette.color_at(360, 0, 0), None);
}

#[test]
fn modulo_colorer_asks_every_nth_time() {
    let inner = PaletteColorer::new(vec![700], vec![800], vec![900]).unwrap();
    let base = hsv(0, 0, 1000);
    let mut colorer = ModuloColorer::new(inner, base, 3).unwrap();
    let mut answers: Vec<Hsv> = Vec::new();
    for _ in 0..7 {
        answers.push(colorer.color());
        colorer.update();
    }
    let inner_color = hsv(700, 800, 900);
    assert_eq!(answers, vec![inner_color, base, base, inner_color, base, base, inner_color]);
}

#[test]
fn modulo_colorer_color_does_not_count() {
    let inner = PaletteColorer::new(vec![1], vec![2], vec![3]).unwrap();
    let mut colorer = ModuloColorer::new(inner, hsv(9, 9, 9), 2).unwrap();
    for _ in 0..5 {
        assert_eq!(colorer.color(), hsv(1, 2, 3));
    }
    colorer.update();
    for _ in 0..5 {
        assert_eq!(colorer.color(), hsv(9, 9, 9));
    }
}

#[test]
fn modulo_colorer_of_one_always_asks() {
    let inner = AnyColorer::Palette(PaletteColorer::new(vec![1], vec![2], vec![3]).unwrap());
    let mut colorer = ModuloColorer::new(inner, hsv(9, 9, 9), 1).unwrap();
    for _ in 0..4 {
        assert_eq!(colorer.color(), hsv(1, 2, 3));
        colorer.update();
    }
}

#[test]
fn modulo_colorer_needs_a_positive_modulus() {
    let inner = || PastelColorer::new();
    assert_eq!(ModuloColorer::new(inner(), hsv(0, 0, 0), 0).err(), Some(ColorerError::BadModulus));
    assert_eq!(ModuloColorer::new(inner(), hsv(0, 0, 0), -3).err(), Some(ColorerError::BadModulus));
    assert!(ModuloColorer::new(inner(), hsv(0, 0, 0), i32::MAX).is_ok());
}

fn fixed(hue: i32) -> AnyGridColorer {
    AnyGridColorer::Alternating(AlternatingColorer::new(vec![hsv(hue, 0, 0)]).unwrap())
}

#[test]
fn rotating_colorer_is_first_in_first_out() {
    let n: usize = 4;
    let queue: VecDeque<AnyGridColorer> = (0..n).map(|i| fixed(i as i32)).collect();
    let mut colorer = RotatingColorer::new(queue).unwrap();
    let total = CellIndex { row: 1, col: 1 };
    for k in 0..13 {
        assert_eq!(color_of(&colorer, 0, 0, &total), hsv((k % n) as i32, 0, 0));
        // Asking again does not rotate.
        assert_eq!(color_of(&colorer, 0, 0, &total), hsv((k % n) as i32, 0, 0));
        colorer.update();
    }
}

#[test]
fn rotating_colorer_switches_between_kinds() {
    let start = hsv(0, 0, 0);
    let end = hsv(100, 100, 100);
    let mut queue: VecDeque<AnyGridColorer> = VecDeque::new();
    queue.push_back(AnyGridColorer::Interpolated(InterpolatedColorer::new((start, end))));
    let palette = PaletteColorer::new(vec![7], vec![8], vec![9]).unwrap();
    queue.push_back(AnyGridColorer::Palette(palette));
    queue.push_back(fixed(42));
    let mut colorer = RotatingColorer::new(queue).unwrap();
    let total = CellIndex { row: 2, col: 2 };
    assert_eq!(color_of(&colorer, 0, 1, &total), hsv(50, 50, 50));
    colorer.update();
    assert_eq!(color_of(&colorer, 0, 1, &total), hsv(7, 8, 9));
    colorer.update();
    assert_eq!(color_of(&colorer, 0, 1, &total), hsv(42, 0, 0));
    colorer.update();
    assert_eq!(color_of(&colorer, 0, 1, &total), hsv(50, 50, 50));
}

#[test]
fn rotating_colorer_of_one_keeps_its_colorer() {
    let mut queue: VecDeque<AlternatingColorer> = VecDeque::new();
    queue.push_back(AlternatingColorer::new(vec![hsv(1, 1, 1), hsv(2, 2, 2)]).unwrap());
    let mut colorer = RotatingColorer::new(queue).unwrap();
    let total = CellIndex { row: 2, col: 2 };
    colorer.update();
    colorer.update();
    assert_eq!(color_of(&colorer, 0, 1, &total), hsv(2, 2, 2));
}

#[test]
fn rotating_colorers_can_be_nested() {
    let mut inner: VecDeque<AnyGridColorer> = VecDeque::new();
    inner.push_back(fixed(1));
    inner.push_back(fixed(2));
    let mut other: VecDeque<AnyGridColorer> = VecDeque::new();
    other.push_back(fixed(3));
    let mut outer: VecDeque<RotatingColorer<AnyGridColorer>> = VecDeque::new();
    outer.push_back(RotatingColorer::new(inner).unwrap());
    outer.push_back(RotatingColorer::new(other).unwrap());
    let mut colorer = RotatingColorer::new(outer).unwrap();
    let total = CellIndex { row: 1, col: 1 };
    assert_eq!(color_of(&colorer, 0, 0, &total).hue, 1);
    colorer.update();
    assert_eq!(color_of(&colorer, 0, 0, &total).hue, 3);
    colorer.update();
    assert_eq!(color_of(&colorer, 0, 0, &total).hue, 1);
}

#[test]
fn rotating_colorer_needs_colorers() {
    let queue: VecDeque<AnyGridColorer> = VecDeque::new();
    assert_eq!(RotatingColorer::new(queue).err(), Some(ColorerError::NoColorers));
}

#[test]
fn noise_colorer_checks_the_hue_of_its_base() {
    let bound = vec2(100, 200);
    assert_eq!(NoiseColorer::new(hsv(99, 0, 0), bound).err(), Some(ColorerError::HueOutOfBounds));
    assert_eq!(NoiseColorer::new(hsv(201, 0, 0), bound).err(), Some(ColorerError::HueOutOfBounds));
    assert!(NoiseColorer::new(hsv(100, 0, 0), bound).is_ok());
    assert!(NoiseColorer::new(hsv(200, 0, 0), bound).is_ok());
    assert_eq!(
        NoiseColorer::new(hsv(150, 0, 0), vec2(200, 100)).err(),
        Some(ColorerError::HueOutOfBounds)
    );
}

#[test]
fn noise_colorer_asks_at_three_points() {
    let colorer = NoiseColorer::new(hsv(150, 530, 630), vec2(100, 200)).unwrap();
    let cell = cell_at(4, 7);
    let total = CellIndex { row: 10, col: 10 };
    let queries = colorer.queries(GridParams { cell: &cell, total_num_cells: &total });
    assert_eq!(queries.hue, NoisePoint { x: 7, y: 4, z: 150 });
    assert_eq!(queries.saturation, NoisePoint { x: 7, y: 4, z: 530 + 1000 * 1000 });
    assert_eq!(queries.value, NoisePoint { x: 7, y: 4, z: 630 + 10_000 * 1000 });
}

#[test]
fn noise_colorer_drifts_by_a_hundredth_of_each_sample() {
    let mut colorer = NoiseColorer::new(hsv(150, 530, 630), vec2(100, 200)).unwrap();
    let samples = NoiseSamples { hue: 1000, saturation: -500, value: 250 };
    assert_eq!(colorer.color_from_noise(samples), hsv(160, 525, 632));
    // Asking does not move the colorer.
    assert_eq!(colorer.color_from_noise(samples), hsv(160, 525, 632));
    assert_eq!(colorer.current_color(), hsv(150, 530, 630));
    colorer.advance(samples);
    assert_eq!(colorer.current_color(), hsv(160, 525, 632));
    assert_eq!(colorer.base_color(), hsv(150, 530, 630));
    assert_eq!(colorer.hue_bound(), Vec2 { x: 100, y: 200 });
    assert_eq!(colorer.color_from_noise(samples), hsv(170, 520, 634));
}

#[test]
fn noise_colorer_wraps_the_hue_inside_its_bounds() {
    let mut colorer = NoiseColorer::new(hsv(195, 0, 0), vec2(100, 200)).unwrap();
    let up = NoiseSamples { hue: 1000, saturation: 0, value: 0 };
    assert_eq!(colorer.color_from_noise(up).hue, 105);
    let down = NoiseSamples { hue: -10_000, saturation: 0, value: 0 };
    assert_eq!(colorer.color_from_noise(down).hue, 195);
    let further_down = NoiseSamples { hue: -9_600, saturation: 0, value: 0 };
    assert_eq!(colorer.color_from_noise(further_down).hue, 199);
    for _ in 0..150 {
        colorer.advance(NoiseSamples { hue: -777, saturation: i32::MAX, value: i32::MIN });
        let hue = colorer.current_color().hue;
        assert!(100 <= hue && hue < 200);
    }
    assert_eq!(colorer.current_color().saturation, i32::MAX);
    assert_eq!(colorer.current_color().value, i32::MIN);
}

#[test]
fn noise_colorer_with_a_single_hue_keeps_it() {
    let colorer = NoiseColorer::new(hsv(100, 5, 5), vec2(100, 100)).unwrap();
    let samples = NoiseSamples { hue: 1000, saturation: 100, value: -100 };
    assert_eq!(colorer.color_from_noise(samples), hsv(100, 6, 4));
}

#[test]
fn colors_in_a_hue_range() {
    assert_eq!(
        color_in_hue_range(100, 300, 500),
        Hsl { hue: 200, saturation: DEFAULT_SATURATION, lightness: DEFAULT_LIGHTNESS }
    );
    assert_eq!(color_in_hue_range(100, 300, 0).hue, 100);
    assert_eq!(color_in_hue_range(100, 300, 999).hue, 299);
    assert_eq!(color_in_hue_range(300, 100, 250).hue, 250);
    assert_eq!(
        color_in_range(0, 1000, 200, 400, 333, 500),
        Hsl { hue: 333, saturation: 300, lightness: 500 }
    );
}

#[test]
fn random_colors_stay_in_their_ranges() {
    for _ in 0..300 {
        let color = random_color_in_hue_range(400, 600);
        assert!(400 <= color.hue && color.hue <= 600);
        assert_eq!(color.saturation, 500);
        assert_eq!(color.lightness, 500);
        let color = random_color_in_range(600, 400, 100, 200);
        assert!(400 <= color.hue && color.hue <= 600);
        assert!(100 <= color.saturation && color.saturation <= 200);
        assert_eq!(color.lightness, 500);
    }
    assert_eq!(random_color_in_hue_range(250, 250).hue, 250);
}
