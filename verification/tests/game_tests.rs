use bunnymark::components::{ImageId, ImageInfo, Transform};
use bunnymark::game::{Game, INITIAL_COUNT};
use bunnymark::input::{InputEvent, SPAWN_COUNT, SPAWN_SPEED_LIMIT, SPAWN_X_MAX, SPAWN_X_MIN, SPAWN_Y_INSET};
use bunnymark::math::Vec2i;

fn new_game() -> Game {
    let images = vec![ImageInfo { width: 26, height: 37 }];
    Game::new(&images, ImageId { id: 0 }, Vec2i::new(1920, 1280))
}

#[test]
fn startup_population_reaches_the_batch_on_the_first_tick() {
    let mut g = new_game();
    assert_eq!(g.bunny_count(), INITIAL_COUNT);
    assert_eq!(g.active_sprite_count(), INITIAL_COUNT as usize);
    let draws = g.run_world(Vec2i::new(1920, 1280)).unwrap();
    assert_eq!(draws.len(), 1);
    assert_eq!(g.render_system.batches[0].new_len, INITIAL_COUNT as i64);
    assert_eq!(g.render_system.batches[0].len, INITIAL_COUNT as i64);
    assert_eq!(draws[0].index_count, 6 * INITIAL_COUNT as i64);
}

#[test]
fn pressed_ticks_spawn_and_release_stops() {
    let mut g = new_game();
    g.run_world(Vec2i::new(1920, 1280)).unwrap();

    let mut events = vec![InputEvent::MouseDown];
    g.process_events(&mut events);
    assert!(events.is_empty());
    g.run_world(Vec2i::new(1920, 1280)).unwrap();
    assert_eq!(g.bunny_count(), INITIAL_COUNT + SPAWN_COUNT);
    assert_eq!(g.active_sprite_count(), (INITIAL_COUNT + SPAWN_COUNT) as usize);

    // still pressed: the next tick spawns again
    g.run_world(Vec2i::new(1920, 1280)).unwrap();
    assert_eq!(g.bunny_count(), INITIAL_COUNT + 2 * SPAWN_COUNT);

    let mut events = vec![InputEvent::MouseUp];
    g.process_events(&mut events);
    g.run_world(Vec2i::new(1920, 1280)).unwrap();
    assert_eq!(g.bunny_count(), INITIAL_COUNT + 2 * SPAWN_COUNT);
}

#[test]
fn spawned_entities_reach_their_batch_one_tick_later() {
    let mut g = new_game();
    g.run_world(Vec2i::new(1920, 1280)).unwrap();
    let mut events = vec![InputEvent::MouseDown];
    g.process_events(&mut events);
    g.run_world(Vec2i::new(1920, 1280)).unwrap();
    // the spawns of this tick were committed after the drain
    assert_eq!(g.render_system.batches[0].new_len, INITIAL_COUNT as i64);
    let mut events = vec![InputEvent::MouseUp];
    g.process_events(&mut events);
    let draws = g.run_world(Vec2i::new(1920, 1280)).unwrap();
    assert_eq!(
        g.render_system.batches[0].new_len,
        (INITIAL_COUNT + SPAWN_COUNT) as i64
    );
    assert_eq!(draws[0].index_count, 6 * (INITIAL_COUNT + SPAWN_COUNT) as i64);
}

#[test]
fn spawned_entities_sit_in_the_spawn_band() {
    let mut g = new_game();
    let mut events = vec![InputEvent::MouseDown];
    g.process_events(&mut events);
    g.run_world(Vec2i::new(1920, 1280)).unwrap();
    let first = INITIAL_COUNT as usize;
    let count = g.world.positions.len();
    assert_eq!(count, (INITIAL_COUNT + SPAWN_COUNT) as usize);
    let expected_transform = Transform::from_image(&ImageInfo { width: 26, height: 37 });
    for slot in first..count {
        let p = g.world.positions[slot].unwrap().0;
        let v = g.world.velocities[slot].unwrap().0;
        assert!(SPAWN_X_MIN <= p.x && p.x < SPAWN_X_MAX);
        assert_eq!(p.y, 1280 - SPAWN_Y_INSET);
        assert!(0 <= v.x && v.x <= SPAWN_SPEED_LIMIT);
        assert!(-SPAWN_SPEED_LIMIT <= v.y && v.y <= 0);
        assert_eq!(g.world.transforms[slot], Some(expected_transform));
        assert_eq!(g.world.sprites[slot].unwrap().batch_id, 0);
    }
}

#[test]
fn resize_updates_the_window() {
    let mut g = new_game();
    g.run_world(Vec2i::new(1920, 1280)).unwrap();
    g.run_world(Vec2i::new(800, 600)).unwrap();
    assert_eq!(g.render_system.window_size, Vec2i::new(800, 600));
    let p = g.render_system.projection();
    assert_eq!((p.left, p.right, p.bottom, p.top), (0, 800, 0, 600));
}

#[test]
fn simulation_runs_inside_the_tick() {
    let mut g = new_game();
    // before any tick the startup entities rest at their spawn spots
    let before: Vec<_> = (0..INITIAL_COUNT as usize)
        .map(|i| (g.world.positions[i].unwrap(), g.world.velocities[i].unwrap()))
        .collect();
    g.run_world(Vec2i::new(1920, 1280)).unwrap();
    for (i, (p0, v0)) in before.iter().enumerate() {
        let p1 = g.world.positions[i].unwrap().0;
        // the entity moved by its pre-tick velocity before any clamping
        let moved = Vec2i::new(p0.0.x + v0.0.x, p0.0.y + v0.0.y);
        let clamped = Vec2i::new(
            moved.x.clamp(0, 1920),
            moved.y.clamp(0, 1280),
        );
        assert_eq!(p1, clamped);
    }
}
