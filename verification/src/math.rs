//! Integer 2D vectors, the coordinate type of every component.

use vstd::prelude::*;

verus! {

/// Every coordinate handled by the engine stays within this bound, so that
/// sums of a few coordinates can never overflow an `i64`.
pub const COORD_LIMIT: i64 = 0x100_0000_0000_0000;

/// A 2D vector with integer coordinates (quarter-pixel units).
#[derive(Clone, Copy, Debug, PartialEq, Eq, Structural)]
pub struct Vec2i {
    pub x: i64,
    pub y: i64,
}

/// Both coordinates of `v` lie within `COORD_LIMIT`.
pub open spec fn coord_bounded(v: Vec2i) -> bool {
    -COORD_LIMIT <= v.x <= COORD_LIMIT && -COORD_LIMIT <= v.y <= COORD_LIMIT
}

impl Vec2i {
    pub fn new(x: i64, y: i64) -> (r: Vec2i)
        ensures
            r == (Vec2i { x, y }),
    {
        Vec2i { x, y }
    }
}

} // verus!
