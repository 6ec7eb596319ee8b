use rusty_visuals::geom::{vec2, Rect};
use rusty_visuals::mover::{EdgePolicy, Mover, MAX_MASS, MIN_MASS, MIN_SPEED, TOP_SPEED};
use rusty_visuals::units::UNIT;

fn window() -> Rect {
    Rect::from_x_y_w_h(0, 0, 600 * UNIT, 600 * UNIT).unwrap()
}

#[test]
fn a_new_mover_stands_still_inside_its_rect() {
    let rect = Rect::from_edges(-50, 70, 10, 20).unwrap();
    let mut seen_x: Vec<i32> = Vec::new();
    for _ in 0..300 {
        let mover = Mover::new(rect);
        let position = mover.position();
        assert!(-50 <= position.x && position.x < 70);
        assert!(10 <= position.y && position.y < 20);
        assert_eq!(mover.velocity(), vec2(0, 0));
        assert!(MIN_MASS <= mover.mass() && mover.mass() < MAX_MASS);
        assert_eq!(mover.top_speed(), TOP_SPEED);
        assert_eq!(mover.min_speed(), MIN_SPEED);
        assert_eq!(mover.inherent_force(), vec2(0, 0));
        assert_eq!(mover.current_force(), vec2(0, 0));
        assert_eq!(mover.edge_policy(), EdgePolicy::Clamp);
        if !seen_x.contains(&position.x) {
            seen_x.push(position.x);
        }
    }
    assert!(seen_x.len() > 1);
}

#[test]
fn a_new_mover_in_a_rect_without_extent_has_no_choice() {
    let rect = Rect::from_edges(5, 5, -3, -3).unwrap();
    let mover = Mover::new(rect);
    assert_eq!(mover.position(), vec2(5, -3));
    let rect = Rect::from_edges(5, 5, 0, 10).unwrap();
    let mover = Mover::new(rect);
    assert_eq!(mover.position().x, 5);
    assert!(0 <= mover.position().y && mover.position().y < 10);
}

#[test]
fn speed_limits_and_masses() {
    assert_eq!(TOP_SPEED, 4 * UNIT);
    assert_eq!(MIN_SPEED, -4 * UNIT);
    assert_eq!(MIN_MASS, UNIT);
    assert_eq!(MAX_MASS, 10 * UNIT);
}

#[test]
fn a_mover_needs_a_positive_mass() {
    assert!(Mover::at(vec2(0, 0), 0).is_none());
    assert!(Mover::at(vec2(0, 0), -5).is_none());
    let mover = Mover::at(vec2(3, 4), 1).unwrap();
    assert_eq!(mover.position(), vec2(3, 4));
    assert_eq!(mover.mass(), 1);
    assert_eq!(mover.velocity(), vec2(0, 0));
    assert_eq!(mover.edge_policy(), EdgePolicy::Clamp);
}

fn new_mover_with_room(rect: Rect, room: i32) -> Mover {
    // A new mover is placed at random; draw again in the rare case that it
    // starts too near the right or the top edge to move freely.
    loop {
        let mover = Mover::new(rect);
        let position = mover.position();
        if position.x + room <= rect.right() && position.y + room <= rect.top() {
            return mover;
        }
    }
}

#[test]
fn a_single_force_moves_the_mover() {
    let rect = window();
    let mut mover = new_mover_with_room(rect, 2 * UNIT);
    let before = mover.position();
    mover.apply_force(vec2(UNIT, 0));
    mover.update(rect);
    assert!(mover.velocity().x > 0);
    assert_eq!(mover.velocity(), vec2(UNIT, 0));
    assert_eq!(mover.position().x, before.x + mover.velocity().x);
    assert_eq!(mover.position().y, before.y);
    // The force was for one tick only: the next tick keeps the velocity.
    assert_eq!(mover.current_force(), vec2(0, 0));
    mover.update(rect);
    assert_eq!(mover.velocity(), vec2(UNIT, 0));
    assert_eq!(mover.position().x, before.x + 2 * UNIT);
}

#[test]
fn a_single_force_at_the_edge_stops_the_mover_there() {
    let rect = Rect::from_edges(0, 1000, 0, 1000).unwrap();
    let mut mover = Mover::at(vec2(500, 500), UNIT).unwrap();
    mover.apply_force(vec2(UNIT, 0));
    mover.update(rect);
    assert_eq!(mover.position(), vec2(1000, 500));
    assert_eq!(mover.velocity(), vec2(0, 0));
}

#[test]
fn forces_add_up_within_a_tick() {
    let mut mover = Mover::at(vec2(0, 0), UNIT).unwrap();
    mover.apply_force(vec2(100, -200));
    mover.apply_force(vec2(50, 20));
    assert_eq!(mover.current_force(), vec2(150, -180));
    assert_eq!(mover.velocity(), vec2(0, 0));
    mover.update(window());
    assert_eq!(mover.velocity(), vec2(150, -180));
    assert_eq!(mover.position(), vec2(150, -180));
}

#[test]
fn gathered_force_stops_at_the_ends_of_the_range() {
    let mut mover = Mover::at(vec2(0, 0), UNIT).unwrap();
    mover.apply_force(vec2(i32::MAX, i32::MIN));
    mover.apply_force(vec2(i32::MAX, i32::MIN));
    assert_eq!(mover.current_force(), vec2(i32::MAX, i32::MIN));
    mover.update(window());
    assert_eq!(mover.velocity(), vec2(TOP_SPEED, MIN_SPEED));
}

#[test]
fn velocity_stays_within_the_speed_limits() {
    let rect = window();
    let mut mover = Mover::new(rect);
    let forces = [
        vec2(100_000, -100_000),
        vec2(-3, 7),
        vec2(i32::MIN, i32::MAX),
        vec2(5000, 5000),
        vec2(-9000, 1),
    ];
    for round in 0..40 {
        for force in forces.iter().take(1 + round % forces.len()) {
            mover.apply_force(*force);
        }
        mover.update(rect);
        let velocity = mover.velocity();
        assert!(MIN_SPEED <= velocity.x && velocity.x <= TOP_SPEED);
        assert!(MIN_SPEED <= velocity.y && velocity.y <= TOP_SPEED);
        assert!(rect.contains(mover.position()));
    }
}

#[test]
fn friction_opposes_the_velocity() {
    let rect = window();
    let mut mover = Mover::at(vec2(0, 0), UNIT).unwrap();
    mover.apply_force(vec2(1000, -505));
    mover.update(rect);
    assert_eq!(mover.velocity(), vec2(1000, -505));
    mover.apply_friction();
    assert_eq!(mover.current_force(), vec2(-300, 151));
    mover.update(rect);
    assert_eq!(mover.velocity(), vec2(700, -354));
}

#[test]
fn inherent_force_acts_in_every_tick() {
    let rect = window();
    let mut mover = Mover::new_with_inherent_force(rect, vec2(0, 300));
    while mover.position().y + 1600 > rect.top() {
        // Too near the top edge to rise freely: draw again.
        mover = Mover::new_with_inherent_force(rect, vec2(0, 300));
    }
    assert_eq!(mover.inherent_force(), vec2(0, 300));
    assert_eq!(mover.current_force(), vec2(0, 300));
    let start = mover.position();
    mover.update(rect);
    assert_eq!(mover.velocity(), vec2(0, 300));
    assert_eq!(mover.current_force(), vec2(0, 300));
    mover.apply_force(vec2(0, -100));
    mover.update(rect);
    assert_eq!(mover.velocity(), vec2(0, 500));
    mover.update(rect);
    assert_eq!(mover.velocity(), vec2(0, 800));
    assert_eq!(mover.position(), vec2(start.x, start.y + 1600));
}

#[test]
fn clamping_stops_the_mover_on_the_edge() {
    let rect = Rect::from_edges(0, 1000, 0, 1000).unwrap();
    let mut mover = Mover::at(vec2(900, 100), UNIT).unwrap();
    mover.apply_force(vec2(300, -300));
    mover.update(rect);
    assert_eq!(mover.position(), vec2(1000, 0));
    assert_eq!(mover.velocity(), vec2(0, 0));
}

#[test]
fn wrapping_moves_the_mover_to_the_opposite_edge() {
    let rect = Rect::from_edges(0, 1000, 0, 1000).unwrap();
    let mut mover = Mover::at(vec2(900, 100), UNIT).unwrap().with_edge_policy(EdgePolicy::Wrap);
    assert_eq!(mover.edge_policy(), EdgePolicy::Wrap);
    mover.apply_force(vec2(300, -300));
    mover.update(rect);
    assert_eq!(mover.position(), vec2(0, 1000));
    assert_eq!(mover.velocity(), vec2(300, -300));
}

#[test]
fn bouncing_throws_the_mover_back() {
    let rect = Rect::from_edges(0, 1000, 0, 1000).unwrap();
    let mut mover = Mover::at(vec2(900, 100), UNIT).unwrap().with_edge_policy(EdgePolicy::Bounce);
    mover.apply_force(vec2(300, -301));
    mover.update(rect);
    assert_eq!(mover.position(), vec2(1000, 0));
    assert_eq!(mover.velocity(), vec2(-150, 150));
    mover.update(rect);
    assert_eq!(mover.position(), vec2(850, 150));
}

#[test]
fn a_mover_outside_a_new_rect_is_brought_inside() {
    let mut mover = Mover::at(vec2(5000, -5000), UNIT).unwrap();
    let rect = Rect::from_edges(-10, 10, -10, 10).unwrap();
    mover.update(rect);
    assert_eq!(mover.position(), vec2(10, -10));
    let mut mover = Mover::at(vec2(i32::MAX, i32::MIN), UNIT).unwrap();
    mover.apply_force(vec2(i32::MAX, i32::MIN));
    mover.update(rect);
    assert_eq!(mover.position(), vec2(10, -10));
    assert_eq!(mover.velocity(), vec2(0, 0));
}

#[test]
fn forces_can_be_scaled_by_mass() {
    let rect = window();
    let mut heavy = Mover::at(vec2(0, 0), 4 * UNIT).unwrap().with_mass_scaling(true);
    assert!(heavy.scales_by_mass());
    heavy.apply_force(vec2(1000, -2002));
    assert_eq!(heavy.current_force(), vec2(250, -500));
    heavy.update(rect);
    assert_eq!(heavy.velocity(), vec2(250, -500));

    let mut unit = Mover::at(vec2(0, 0), UNIT).unwrap().with_mass_scaling(true);
    unit.apply_force(vec2(1000, -2002));
    assert_eq!(unit.current_force(), vec2(1000, -2002));

    let mut light = Mover::at(vec2(0, 0), 1).unwrap().with_mass_scaling(true);
    light.apply_force(vec2(i32::MAX, -3));
    assert_eq!(light.current_force(), vec2(i32::MAX, -3000));

    let mut plain = Mover::at(vec2(0, 0), 4 * UNIT).unwrap();
    assert!(!plain.scales_by_mass());
    plain.apply_force(vec2(1000, -2002));
    assert_eq!(plain.current_force(), vec2(1000, -2002));
}

#[test]
fn friction_is_scaled_by_mass_too() {
    let rect = window();
    let mut mover = Mover::at(vec2(0, 0), 2 * UNIT).unwrap().with_mass_scaling(true);
    mover.apply_force(vec2(2000, 0));
    mover.update(rect);
    assert_eq!(mover.velocity(), vec2(1000, 0));
    mover.apply_friction();
    assert_eq!(mover.current_force(), vec2(-150, 0));
}
