use bunnymark::components::{ImageInfo, Sprite};
use bunnymark::math::Vec2i;
use bunnymark::render::{RenderError, RenderSystem};
use bunnymark::tracker::{SpriteEvent, SpriteLog};

fn catalog_one() -> Vec<ImageInfo> {
    vec![ImageInfo { width: 26, height: 37 }]
}

#[test]
fn reader_sees_each_change_once() {
    let mut log = SpriteLog::new();
    let r = log.register_reader();
    log.record(SpriteEvent::Inserted(4));
    log.record(SpriteEvent::Removed(4));
    let evs = log.read(r);
    assert_eq!(evs, vec![SpriteEvent::Inserted(4), SpriteEvent::Removed(4)]);
    let evs = log.read(r);
    assert_eq!(evs.len(), 0);
}

#[test]
fn reader_starts_at_registration() {
    let mut log = SpriteLog::new();
    log.record(SpriteEvent::Inserted(1));
    let r = log.register_reader();
    log.record(SpriteEvent::Inserted(2));
    let evs = log.read(r);
    assert_eq!(evs, vec![SpriteEvent::Inserted(2)]);
}

#[test]
fn independent_readers_have_independent_cursors() {
    let mut log = SpriteLog::new();
    let r1 = log.register_reader();
    log.record(SpriteEvent::Inserted(9));
    let r2 = log.register_reader();
    log.record(SpriteEvent::Removed(9));
    assert_eq!(log.read(r1).len(), 2);
    assert_eq!(log.read(r2).len(), 1);
}

#[test]
fn membership_lives_between_the_two_drains() {
    // Inserted(7) in one drain, Removed(7) in a later one: the batch
    // holds slot 7 exactly between them.
    let images = catalog_one();
    let mut log = SpriteLog::new();
    let mut rs = RenderSystem::new(&images, &mut log, Vec2i::new(480, 320));
    let mut sprites: Vec<Option<Sprite>> = vec![None; 8];
    sprites[7] = Some(Sprite { batch_id: 0 });
    let transforms = vec![None; 8];
    let positions = vec![None; 8];

    assert!(!rs.batches[0].is_member(7));

    log.record(SpriteEvent::Inserted(7));
    let r = rs.run(&sprites, &transforms, &positions, &mut log, Vec2i::new(480, 320));
    assert!(r.is_ok());
    assert!(rs.batches[0].is_member(7));

    // a tick with no new events keeps the membership
    let r = rs.run(&sprites, &transforms, &positions, &mut log, Vec2i::new(480, 320));
    assert!(r.is_ok());
    assert!(rs.batches[0].is_member(7));

    log.record(SpriteEvent::Removed(7));
    let r = rs.run(&sprites, &transforms, &positions, &mut log, Vec2i::new(480, 320));
    assert!(r.is_ok());
    assert!(!rs.batches[0].is_member(7));
}

#[test]
fn insertion_with_unknown_batch_fails() {
    let images = catalog_one();
    let mut log = SpriteLog::new();
    let mut rs = RenderSystem::new(&images, &mut log, Vec2i::new(100, 100));
    let mut sprites: Vec<Option<Sprite>> = vec![None; 3];
    sprites[2] = Some(Sprite { batch_id: 5 });
    let transforms = vec![None; 3];
    let positions = vec![None; 3];
    log.record(SpriteEvent::Inserted(2));
    let r = rs.run(&sprites, &transforms, &positions, &mut log, Vec2i::new(100, 100));
    assert_eq!(r, Err(RenderError::UnknownBatch(5)));
}

#[test]
fn insertion_for_despawned_entity_is_tolerated() {
    let images = catalog_one();
    let mut log = SpriteLog::new();
    let mut rs = RenderSystem::new(&images, &mut log, Vec2i::new(100, 100));
    let sprites: Vec<Option<Sprite>> = vec![None; 3];
    let transforms = vec![None; 3];
    let positions = vec![None; 3];
    log.record(SpriteEvent::Inserted(2));
    let r = rs.run(&sprites, &transforms, &positions, &mut log, Vec2i::new(100, 100));
    assert!(r.is_ok());
    assert!(!rs.batches[0].is_member(2));
}

#[test]
fn removal_uses_the_slot_directly() {
    // the sprite component is already gone when the removal is drained
    let images = catalog_one();
    let mut log = SpriteLog::new();
    let mut rs = RenderSystem::new(&images, &mut log, Vec2i::new(100, 100));
    let mut sprites: Vec<Option<Sprite>> = vec![None; 4];
    sprites[3] = Some(Sprite { batch_id: 0 });
    let transforms = vec![None; 4];
    let positions = vec![None; 4];
    log.record(SpriteEvent::Inserted(3));
    rs.run(&sprites, &transforms, &positions, &mut log, Vec2i::new(100, 100)).unwrap();
    assert!(rs.batches[0].is_member(3));
    sprites[3] = None; // component teardown raced ahead
    log.record(SpriteEvent::Removed(3));
    let r = rs.run(&sprites, &transforms, &positions, &mut log, Vec2i::new(100, 100));
    assert!(r.is_ok());
    assert!(!rs.batches[0].is_member(3));
}

#[test]
fn frame_draw_state_is_fixed() {
    let d = bunnymark::render::frame_draw_state();
    assert!(!d.depth_test);
    assert!(d.blend);
    assert_eq!(d.blend_source, bunnymark::render::BlendFactor::SrcAlpha);
    assert_eq!(d.blend_destination, bunnymark::render::BlendFactor::OneMinusSrcAlpha);
    assert!(d.clear_color);
}

#[test]
fn projection_covers_the_window() {
    let images = catalog_one();
    let mut log = SpriteLog::new();
    let rs = RenderSystem::new(&images, &mut log, Vec2i::new(480, 320));
    let p = rs.projection();
    assert_eq!(p.left, 0);
    assert_eq!(p.right, 480);
    assert_eq!(p.bottom, 0);
    assert_eq!(p.top, 320);
    assert_eq!(p.near, 1);
    assert_eq!(p.far, -1);
}
