use bunnymark::components::{Position, Sprite, Transform, Velocity};
use bunnymark::math::Vec2i;
use bunnymark::tracker::SpriteEvent;
use bunnymark::world::{SpawnCommand, World};

fn sample_components() -> (Position, Velocity, Transform, Sprite) {
    (
        Position::new(1, 2),
        Velocity::new(3, 4),
        Transform::new(Vec2i::new(0, 5), Vec2i::new(5, 0)),
        Sprite { batch_id: 0 },
    )
}

#[test]
fn spawn_records_an_insertion() {
    let mut w = World::new(Vec2i::new(100, 100));
    let r = w.sprite_log.register_reader();
    let (p, v, t, s) = sample_components();
    let slot = w.spawn(p, v, t, s);
    assert_eq!(slot, 0);
    assert_eq!(w.entity_count(), 1);
    assert_eq!(w.sprite_log.read(r), vec![SpriteEvent::Inserted(0)]);
}

#[test]
fn lazy_spawn_joins_only_at_maintain() {
    let mut w = World::new(Vec2i::new(100, 100));
    let r = w.sprite_log.register_reader();
    let (p, v, t, s) = sample_components();
    w.lazy_spawn(SpawnCommand { position: p, velocity: v, transform: t, sprite: s });
    // nothing visible mid-tick
    assert_eq!(w.entity_count(), 0);
    assert_eq!(w.sprite_log.read(r).len(), 0);
    w.maintain();
    assert_eq!(w.entity_count(), 1);
    assert_eq!(w.positions[0], Some(p));
    assert_eq!(w.velocities[0], Some(v));
    assert_eq!(w.transforms[0], Some(t));
    assert_eq!(w.sprites[0], Some(s));
    assert_eq!(w.sprite_log.read(r), vec![SpriteEvent::Inserted(0)]);
}

#[test]
fn maintain_applies_commands_in_order() {
    let mut w = World::new(Vec2i::new(100, 100));
    let (p, v, t, s) = sample_components();
    for i in 0..3 {
        w.lazy_spawn(SpawnCommand {
            position: Position::new(i, 0),
            velocity: v,
            transform: t,
            sprite: s,
        });
    }
    let _ = p;
    w.maintain();
    assert_eq!(w.entity_count(), 3);
    for i in 0..3 {
        assert_eq!(w.positions[i as usize], Some(Position::new(i, 0)));
    }
    // the buffer is drained
    assert_eq!(w.commands.len(), 0);
}

#[test]
fn despawn_records_a_removal_once() {
    let mut w = World::new(Vec2i::new(100, 100));
    let r = w.sprite_log.register_reader();
    let (p, v, t, s) = sample_components();
    let slot = w.spawn(p, v, t, s);
    w.despawn(slot);
    assert_eq!(
        w.sprite_log.read(r),
        vec![SpriteEvent::Inserted(0), SpriteEvent::Removed(0)]
    );
    assert_eq!(w.sprites[0], None);
    // a second despawn of the same slot records nothing more
    w.despawn(slot);
    assert_eq!(w.sprite_log.read(r).len(), 0);
}

#[test]
fn active_sprite_count_tracks_live_components() {
    let mut w = World::new(Vec2i::new(100, 100));
    let (p, v, t, s) = sample_components();
    assert_eq!(w.active_sprite_count(), 0);
    let a = w.spawn(p, v, t, s);
    let _b = w.spawn(p, v, t, s);
    assert_eq!(w.active_sprite_count(), 2);
    w.despawn(a);
    assert_eq!(w.active_sprite_count(), 1);
}
