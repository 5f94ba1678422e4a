//! The components an entity carries, and the image catalog entries that
//! sprites and transforms are derived from.

use vstd::prelude::*;
use crate::math::Vec2i;

verus! {

/// Identifies one image of the catalog; doubles as the batch id of every
/// sprite drawn with that image.
#[derive(Clone, Copy, Debug, PartialEq, Eq, Hash, Structural)]
pub struct ImageId {
    pub id: u32,
}

/// Width and height, in pixels, of one catalog image.
#[derive(Clone, Copy, Debug, PartialEq, Eq, Structural)]
pub struct ImageInfo {
    pub width: u16,
    pub height: u16,
}

/// Where an entity stands, in quarter-pixel units.
#[derive(Clone, Copy, Debug, PartialEq, Eq, Structural)]
pub struct Position(pub Vec2i);

impl Position {
    pub fn new(x: i64, y: i64) -> (r: Position)
        ensures
            r.0 == (Vec2i { x, y }),
    {
        Position(Vec2i { x, y })
    }

    pub fn vector(&self) -> (r: Vec2i)
        ensures
            r == self.0,
    {
        self.0
    }
}

/// How far an entity moves each tick, in quarter-pixel units.
#[derive(Clone, Copy, Debug, PartialEq, Eq, Structural)]
pub struct Velocity(pub Vec2i);

impl Velocity {
    pub fn new(x: i64, y: i64) -> (r: Velocity)
        ensures
            r.0 == (Vec2i { x, y }),
    {
        Velocity(Vec2i { x, y })
    }
}

/// A sprite's half-extents in local axes. `up` and `right` are meant to be
/// orthogonal; callers that rotate a transform must preserve that.
#[derive(Clone, Copy, Debug, PartialEq, Eq, Structural)]
pub struct Transform {
    pub up: Vec2i,
    pub right: Vec2i,
}

impl Transform {
    pub fn new(up: Vec2i, right: Vec2i) -> (r: Transform)
        ensures
            r == (Transform { up, right }),
    {
        Transform { up, right }
    }

    /// The axis-aligned transform of an unrotated sprite: half the image
    /// height up, half the image width right. One pixel is four units, so
    /// half a pixel dimension is exactly twice its pixel count.
    pub fn from_image(image: &ImageInfo) -> (r: Transform)
        ensures
            r == spec_transform_from_image(*image),
    {
        Transform {
            up: Vec2i { x: 0, y: 2 * (image.height as i64) },
            right: Vec2i { x: 2 * (image.width as i64), y: 0 },
        }
    }
}

/// What `Transform::from_image` builds for a given image.
pub open spec fn spec_transform_from_image(image: ImageInfo) -> Transform {
    Transform {
        up: Vec2i { x: 0, y: (2 * (image.height as int)) as i64 },
        right: Vec2i { x: (2 * (image.width as int)) as i64, y: 0 },
    }
}

/// Tags an entity as drawable and names the batch it belongs to. Assigned at
/// spawn and never changed afterwards.
#[derive(Clone, Copy, Debug, PartialEq, Eq, Structural)]
pub struct Sprite {
    pub batch_id: u32,
}

impl Sprite {
    pub fn from_image(image_id: ImageId) -> (r: Sprite)
        ensures
            r.batch_id == image_id.id,
    {
        Sprite { batch_id: image_id.id }
    }
}

/// The current canvas size, in quarter-pixel units.
#[derive(Clone, Copy, Debug, PartialEq, Eq, Structural)]
pub struct WindowSize {
    pub size: Vec2i,
}

impl Default for WindowSize {
    fn default() -> (r: WindowSize)
        ensures
            r.size == (Vec2i { x: 0, y: 0 }),
    {
        WindowSize { size: Vec2i { x: 0, y: 0 } }
    }
}

/// A discrete display notification: the canvas was resized.
#[derive(Clone, Copy, Debug, PartialEq, Eq, Structural)]
pub enum DisplayEvent {
    Resized(Vec2i),
}

} // verus!
