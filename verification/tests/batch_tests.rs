use bunnymark::batch::{SpriteBatch, VertexData};
use bunnymark::components::{Position, Transform};
use bunnymark::math::Vec2i;

fn storages(
    entries: &[(i64, i64, i64, i64, i64, i64)],
) -> (Vec<Option<Transform>>, Vec<Option<Position>>) {
    // each entry: (px, py, upx, upy, rightx, righty)
    let mut transforms: Vec<Option<Transform>> = Vec::new();
    let mut positions: Vec<Option<Position>> = Vec::new();
    for &(px, py, ux, uy, rx, ry) in entries {
        transforms.push(Some(Transform::new(
            Vec2i::new(ux, uy),
            Vec2i::new(rx, ry),
        )));
        positions.push(Some(Position::new(px, py)));
    }
    (transforms, positions)
}

#[test]
fn new_len_counts_members_after_settling() {
    let mut b = SpriteBatch::new();
    b.add(3);
    b.add(1);
    b.add(4);
    b.add(1); // duplicate: no effect
    b.remove(3);
    b.add(9);
    b.remove(100); // absent: no effect
    // members now {1, 4, 9}
    assert_eq!(b.new_len, 3);
    assert!(b.is_member(1));
    assert!(b.is_member(4));
    assert!(b.is_member(9));
    assert!(!b.is_member(3));

    let (transforms, positions) = storages(&[(0, 0, 0, 1, 1, 0); 10]);
    b.render(&transforms, &positions);
    assert_eq!(b.len, b.new_len);
}

#[test]
fn capacity_never_shrinks() {
    let mut b = SpriteBatch::new();
    let (transforms, positions) = storages(&[(0, 0, 0, 1, 1, 0); 8]);
    for s in 0..5u32 {
        b.add(s);
    }
    b.render(&transforms, &positions);
    assert_eq!(b.len, 5);
    for s in 0..5u32 {
        b.remove(s);
    }
    assert_eq!(b.new_len, 0);
    let d = b.render(&transforms, &positions);
    // capacity stays at the high-water mark even after mass removal
    assert_eq!(b.len, 5);
    assert_eq!(d.index_count, 30);
    b.add(2);
    b.render(&transforms, &positions);
    assert_eq!(b.len, 5);
}

#[test]
fn add_is_idempotent() {
    let mut b = SpriteBatch::new();
    b.add(7);
    let len_once = b.new_len;
    b.add(7);
    assert_eq!(b.new_len, len_once);
    assert_eq!(b.new_len, 1);
    assert!(b.is_member(7));
}

#[test]
fn remove_is_idempotent() {
    let mut b = SpriteBatch::new();
    b.add(7);
    b.remove(7);
    assert_eq!(b.new_len, 0);
    assert!(!b.is_member(7));
    b.remove(7);
    assert_eq!(b.new_len, 0);
}

#[test]
fn vertex_quad_corners() {
    // p = (10, 20), up = (0, 4), right = (3, 0)
    let q = VertexData::new(
        Vec2i::new(10, 20),
        &Transform::new(Vec2i::new(0, 4), Vec2i::new(3, 0)),
    );
    // p - right + up
    assert_eq!(q.v1.vertex, Vec2i::new(7, 24));
    // p + right + up
    assert_eq!(q.v2.vertex, Vec2i::new(13, 24));
    // p - right - up
    assert_eq!(q.v3.vertex, Vec2i::new(7, 16));
    // p + right - up
    assert_eq!(q.v4.vertex, Vec2i::new(13, 16));
    assert_eq!((q.v1.tex_u, q.v1.tex_v), (0, 0));
    assert_eq!((q.v2.tex_u, q.v2.tex_v), (65535, 0));
    assert_eq!((q.v3.tex_u, q.v3.tex_v), (0, 65535));
    assert_eq!((q.v4.tex_u, q.v4.tex_v), (65535, 65535));
}

#[test]
fn index_pattern_per_quad() {
    let mut b = SpriteBatch::new();
    b.add(0);
    b.add(1);
    b.add(2);
    let (transforms, positions) = storages(&[(5, 5, 0, 2, 2, 0); 3]);
    b.render(&transforms, &positions);
    assert_eq!(b.index_data.len(), 3);
    for (i, q) in b.index_data.iter().enumerate() {
        let n = (4 * i) as u16;
        assert_eq!(
            (q.i0, q.i1, q.i2, q.i3, q.i4, q.i5),
            (n, n + 1, n + 2, n + 2, n + 3, n + 1)
        );
    }
}

#[test]
fn geometry_regenerated_in_slot_order() {
    let mut b = SpriteBatch::new();
    b.add(2);
    b.add(0);
    let (transforms, positions) = storages(&[
        (100, 100, 0, 1, 1, 0),
        (200, 200, 0, 1, 1, 0),
        (300, 300, 0, 1, 1, 0),
    ]);
    b.render(&transforms, &positions);
    assert_eq!(b.vertex_data.len(), 2);
    // slot 0 first, slot 2 second; v1 = p - right + up
    assert_eq!(b.vertex_data[0].v1.vertex, Vec2i::new(99, 101));
    assert_eq!(b.vertex_data[1].v1.vertex, Vec2i::new(299, 301));
}

#[test]
fn member_without_components_is_skipped() {
    let mut b = SpriteBatch::new();
    b.add(0);
    b.add(5); // no storage entry for slot 5
    let (transforms, positions) = storages(&[(1, 1, 0, 1, 1, 0)]);
    let d = b.render(&transforms, &positions);
    assert_eq!(b.vertex_data.len(), 1);
    // the draw still covers the full materialized capacity
    assert_eq!(b.len, 2);
    assert_eq!(d.index_count, 12);
}

#[test]
fn empty_batch_still_draws() {
    let mut b = SpriteBatch::new();
    let (transforms, positions) = storages(&[]);
    let d = b.render(&transforms, &positions);
    assert_eq!(b.len, 0);
    assert_eq!(d.index_count, 0);
}
