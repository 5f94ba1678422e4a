use bunnymark::components::{Position, Velocity};
use bunnymark::math::Vec2i;
use bunnymark::sim::{
    boundary_pass, correct_boundary, integrate_pass, MoveSystem, DAMP_LIMIT, GRAVITY,
};

#[test]
fn gravity_tick_on_three_resting_entities() {
    // three entities at arbitrary positions inside a 480 x 320 window,
    // zero velocity
    let starts = [(10, 10), (250, 100), (479, 319)];
    let mut positions: Vec<Option<Position>> =
        starts.iter().map(|&(x, y)| Some(Position::new(x, y))).collect();
    let mut velocities: Vec<Option<Velocity>> =
        starts.iter().map(|_| Some(Velocity::new(0, 0))).collect();
    let m = MoveSystem;
    m.run(&mut positions, &mut velocities, Vec2i::new(480, 320));
    for (i, &(x, y)) in starts.iter().enumerate() {
        // position moved by the pre-tick velocity: zero
        assert_eq!(positions[i].unwrap().0, Vec2i::new(x, y));
        // vertical velocity dropped by exactly the gravity constant
        assert_eq!(velocities[i].unwrap().0, Vec2i::new(0, -GRAVITY));
    }
}

#[test]
fn integration_moves_by_pre_tick_velocity() {
    let mut positions = vec![Some(Position::new(100, 200))];
    let mut velocities = vec![Some(Velocity::new(7, -2))];
    integrate_pass(&mut positions, &mut velocities);
    assert_eq!(positions[0].unwrap().0, Vec2i::new(107, 198));
    assert_eq!(velocities[0].unwrap().0, Vec2i::new(7, -2 - GRAVITY));
}

#[test]
fn left_edge_reflects() {
    // entity at x = -5 with vx = 2 in a window of width 480
    let mut positions = vec![Some(Position::new(-5, 10))];
    let mut velocities = vec![Some(Velocity::new(2, 0))];
    boundary_pass(&mut positions, &mut velocities, Vec2i::new(480, 320));
    assert_eq!(positions[0].unwrap().0.x, 0);
    assert_eq!(velocities[0].unwrap().0.x, -2);
    assert_eq!(positions[0].unwrap().0.y, 10);
    assert_eq!(velocities[0].unwrap().0.y, 0);
}

#[test]
fn right_edge_reflects() {
    let mut positions = vec![Some(Position::new(500, 10))];
    let mut velocities = vec![Some(Velocity::new(3, 1))];
    boundary_pass(&mut positions, &mut velocities, Vec2i::new(480, 320));
    assert_eq!(positions[0].unwrap().0.x, 480);
    assert_eq!(velocities[0].unwrap().0.x, -3);
}

#[test]
fn top_edge_zeroes_vertical_velocity() {
    let mut positions = vec![Some(Position::new(10, 400))];
    let mut velocities = vec![Some(Velocity::new(1, 9))];
    boundary_pass(&mut positions, &mut velocities, Vec2i::new(480, 320));
    assert_eq!(positions[0].unwrap().0.y, 320);
    assert_eq!(velocities[0].unwrap().0.y, 0);
}

#[test]
fn bottom_bounce_reflects_and_may_damp() {
    let mut positions = vec![Some(Position::new(10, -4))];
    let mut velocities = vec![Some(Velocity::new(0, -6))];
    boundary_pass(&mut positions, &mut velocities, Vec2i::new(480, 320));
    assert_eq!(positions[0].unwrap().0.y, 0);
    let vy = velocities[0].unwrap().0.y;
    // reflected to 6, then damped by a random impulse below DAMP_LIMIT
    assert!(vy <= 6);
    assert!(vy > 6 - DAMP_LIMIT);
}

#[test]
fn boundary_correction_is_idempotent() {
    // one corrective pass settles an entity; a second pass changes nothing
    let cases = [
        ((-5, 10), (2, 0)),
        ((500, 400), (3, 9)),
        ((10, -4), (0, -6)),
        ((100, 100), (5, 5)),
    ];
    let size = Vec2i::new(480, 320);
    for &((px, py), (vx, vy)) in cases.iter() {
        let mut positions = vec![Some(Position::new(px, py))];
        let mut velocities = vec![Some(Velocity::new(vx, vy))];
        boundary_pass(&mut positions, &mut velocities, size);
        let settled_p = positions[0];
        let settled_v = velocities[0];
        boundary_pass(&mut positions, &mut velocities, size);
        assert_eq!(positions[0], settled_p);
        assert_eq!(velocities[0], settled_v);
    }
}

#[test]
fn in_bounds_entity_is_untouched() {
    let (p, v) = correct_boundary(
        Position::new(100, 100),
        Velocity::new(-9, 42),
        Vec2i::new(480, 320),
        0,
        5,
    );
    assert_eq!(p.0, Vec2i::new(100, 100));
    assert_eq!(v.0, Vec2i::new(-9, 42));
}

#[test]
fn entities_missing_a_component_are_skipped() {
    let mut positions = vec![Some(Position::new(5, 5)), None, Some(Position::new(9, 9))];
    let mut velocities = vec![None, Some(Velocity::new(1, 1)), Some(Velocity::new(1, 1))];
    let m = MoveSystem;
    m.run(&mut positions, &mut velocities, Vec2i::new(480, 320));
    // only the pair at slot 2 moves
    assert_eq!(positions[0].unwrap().0, Vec2i::new(5, 5));
    assert_eq!(velocities[1].unwrap().0, Vec2i::new(1, 1));
    assert_eq!(positions[2].unwrap().0, Vec2i::new(10, 10));
    assert_eq!(velocities[2].unwrap().0, Vec2i::new(1, 1 - GRAVITY));
}
