use rusty_visuals::force_field::{
    lattice_points, lattice_size, ForceField, ForceFieldError, RESOLUTION,
};
use rusty_visuals::geom::{vec2, Rect, Vec2};
use rusty_visuals::grid::CellIndex;
use rusty_visuals::units::UNIT;

fn numbered(rect: &Rect) -> Vec<Vec<Vec2>> {
    let size = lattice_size(rect);
    (0..size.row)
        .map(|row| (0..size.col).map(|col| vec2(col as i32, row as i32)).collect())
        .collect()
}

#[test]
fn resolution_is_ten_units() {
    assert_eq!(RESOLUTION, 10 * UNIT);
}

#[test]
fn lattice_size_rounds_up() {
    let rect = Rect::from_edges(0, 100 * UNIT, 0, 50 * UNIT).unwrap();
    assert_eq!(lattice_size(&rect), CellIndex { row: 5, col: 10 });
    let rect = Rect::from_edges(0, 100 * UNIT + 1, 0, 50 * UNIT - 1).unwrap();
    assert_eq!(lattice_size(&rect), CellIndex { row: 5, col: 11 });
    let rect = Rect::from_edges(0, 1, 0, 0).unwrap();
    assert_eq!(lattice_size(&rect), CellIndex { row: 0, col: 1 });
}

#[test]
fn lattice_points_start_at_the_bottom_left() {
    let rect = Rect::from_edges(-15_000, 10_000, 2_000, 22_000).unwrap();
    let points = lattice_points(&rect);
    assert_eq!(points.len(), 2);
    for row in points.iter() {
        assert_eq!(row.len(), 3);
    }
    assert_eq!(points[0], vec![vec2(-15_000, 2_000), vec2(-5_000, 2_000), vec2(5_000, 2_000)]);
    assert_eq!(points[1], vec![vec2(-15_000, 12_000), vec2(-5_000, 12_000), vec2(5_000, 12_000)]);
}

#[test]
fn a_field_takes_samples_of_the_right_shape_only() {
    let rect = Rect::from_edges(0, 30_000, 0, 20_000).unwrap();
    assert!(ForceField::new(rect, numbered(&rect)).is_ok());
    let short: Vec<Vec<Vec2>> = vec![vec![vec2(0, 0); 3]];
    assert_eq!(ForceField::new(rect, short).err(), Some(ForceFieldError::WrongSize));
    let ragged: Vec<Vec<Vec2>> = vec![vec![vec2(0, 0); 3], vec![vec2(0, 0); 2]];
    assert_eq!(ForceField::new(rect, ragged).err(), Some(ForceFieldError::WrongSize));
    assert_eq!(ForceField::new(rect, Vec::new()).err(), Some(ForceFieldError::WrongSize));
}

#[test]
fn positions_snap_to_lattice_points() {
    let rect = Rect::from_edges(-20_000, 20_000, -10_000, 10_000).unwrap();
    let field = ForceField::new(rect, numbered(&rect)).unwrap();
    assert_eq!(field.size(), CellIndex { row: 2, col: 4 });
    assert_eq!(field.rect().left(), -20_000);
    assert_eq!(field.get_acceleration_from_position(vec2(-20_000, -10_000)), vec2(0, 0));
    assert_eq!(field.get_acceleration_from_position(vec2(-10_001, -1)), vec2(0, 0));
    assert_eq!(field.get_acceleration_from_position(vec2(-10_000, 0)), vec2(1, 1));
    assert_eq!(field.get_acceleration_from_position(vec2(0, 9_999)), vec2(2, 1));
    assert_eq!(field.get_acceleration_from_position(vec2(19_999, 0)), vec2(3, 1));
    assert_eq!(field.force_at(1, 3), Some(vec2(3, 1)));
    assert_eq!(field.force_at(2, 0), None);
    assert_eq!(field.force_at(0, 4), None);
}

#[test]
fn positions_outside_the_rect_snap_to_the_border() {
    let rect = Rect::from_edges(-20_000, 20_000, -10_000, 10_000).unwrap();
    let field = ForceField::new(rect, numbered(&rect)).unwrap();
    assert_eq!(field.get_acceleration_from_position(vec2(20_000, 10_000)), vec2(3, 1));
    assert_eq!(field.get_acceleration_from_position(vec2(i32::MAX, i32::MAX)), vec2(3, 1));
    assert_eq!(field.get_acceleration_from_position(vec2(i32::MIN, i32::MIN)), vec2(0, 0));
    assert_eq!(field.get_acceleration_from_position(vec2(i32::MIN, i32::MAX)), vec2(0, 1));
    assert_eq!(field.get_acceleration_from_position(vec2(0, -1_000_000)), vec2(2, 0));
}

#[test]
fn an_empty_lattice_exerts_no_force() {
    let rect = Rect::from_edges(5, 5, 0, 100_000).unwrap();
    let field = ForceField::new(rect, vec![Vec::new(); 10]).unwrap();
    assert_eq!(field.size(), CellIndex { row: 10, col: 0 });
    assert_eq!(field.get_acceleration_from_position(vec2(5, 50)), vec2(0, 0));
    let rect = Rect::from_edges(0, 0, 0, 0).unwrap();
    let field = ForceField::new(rect, Vec::new()).unwrap();
    assert_eq!(field.get_acceleration_from_position(vec2(1, 1)), vec2(0, 0));
}

#[test]
fn update_replaces_rect_and_forces() {
    let rect = Rect::from_edges(0, 20_000, 0, 20_000).unwrap();
    let mut field = ForceField::new(rect, numbered(&rect)).unwrap();
    let wider = Rect::from_edges(0, 40_000, 0, 10_000).unwrap();
    let forces: Vec<Vec<Vec2>> = vec![vec![vec2(9, 9), vec2(8, 8), vec2(7, 7), vec2(6, 6)]];
    assert_eq!(field.update(wider, forces), Ok(()));
    assert_eq!(field.size(), CellIndex { row: 1, col: 4 });
    assert_eq!(field.rect().right(), 40_000);
    assert_eq!(field.get_acceleration_from_position(vec2(39_999, 5)), vec2(6, 6));
    assert_eq!(field.get_acceleration_from_position(vec2(10_000, 5)), vec2(8, 8));
}

#[test]
fn a_refused_update_leaves_the_field_alone() {
    let rect = Rect::from_edges(0, 20_000, 0, 20_000).unwrap();
    let mut field = ForceField::new(rect, numbered(&rect)).unwrap();
    let wider = Rect::from_edges(0, 40_000, 0, 10_000).unwrap();
    assert_eq!(field.update(wider, numbered(&rect)), Err(ForceFieldError::WrongSize));
    assert_eq!(field.size(), CellIndex { row: 2, col: 2 });
    assert_eq!(field.rect().right(), 20_000);
    assert_eq!(field.get_acceleration_from_position(vec2(19_999, 19_999)), vec2(1, 1));
}
