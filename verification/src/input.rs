//! The input bridge: drains queued press/release events and, while pressed,
//! spawns a fixed batch of entities per tick through the command buffer.

use vstd::prelude::*;
use crate::components::{
    spec_transform_from_image, ImageId, ImageInfo, Position, Sprite, Transform, Velocity,
};
use crate::math::{coord_bounded, Vec2i};
use crate::rng::rand_i64_range;
use crate::world::{SpawnCommand, World};

verus! {

/// How many entities one pressed tick spawns.
pub const SPAWN_COUNT: u32 = 20;

/// Largest initial speed per axis: ten pixels per tick. The initial
/// velocity points into the right-and-down quadrant, the integer stand-in
/// for the classic spawn angle between straight down and straight right.
pub const SPAWN_SPEED_LIMIT: i64 = 40;

/// Spawn abscissa range: ten to one hundred and fifty pixels.
pub const SPAWN_X_MIN: i64 = 40;

/// Exclusive upper end of the spawn abscissa range.
pub const SPAWN_X_MAX: i64 = 600;

/// Entities spawn ten pixels below the top edge.
pub const SPAWN_Y_INSET: i64 = 40;

/// A discrete input event queued by the host (mouse-down / mouse-up
/// equivalents).
#[derive(Clone, Copy, Debug, PartialEq, Eq, Structural)]
pub enum InputEvent {
    MouseDown,
    MouseUp,
}

/// Running total of entities spawned into the world, for diagnostics.
#[derive(Clone, Copy, Debug, PartialEq, Eq, Structural)]
pub struct BunnyCount(pub u32);

impl Default for BunnyCount {
    fn default() -> (r: BunnyCount)
        ensures
            r.0 == 0,
    {
        BunnyCount(0)
    }
}

/// The press state after draining a queue: the last event decides, an
/// empty queue leaves the previous state.
pub open spec fn pressed_after(q: Seq<InputEvent>, prev: bool) -> bool {
    if q.len() == 0 {
        prev
    } else {
        q.last() == InputEvent::MouseDown
    }
}

/// What every spawned entity looks like: inside the spawn band below the
/// top edge, moving right and down at a bounded speed, drawn with the
/// designated image.
pub open spec fn spawn_command_ok(
    c: SpawnCommand,
    image_id: ImageId,
    image: ImageInfo,
    size: Vec2i,
) -> bool {
    &&& SPAWN_X_MIN <= c.position.0.x < SPAWN_X_MAX
    &&& c.position.0.y == size.y - SPAWN_Y_INSET
    &&& 0 <= c.velocity.0.x <= SPAWN_SPEED_LIMIT
    &&& -SPAWN_SPEED_LIMIT <= c.velocity.0.y <= 0
    &&& c.transform == spec_transform_from_image(image)
    &&& c.sprite.batch_id == image_id.id
}

/// The input bridge: remembers the designated spawn image and whether the
/// pointer is currently pressed.
pub struct InputSystem {
    pub bunny_image_id: ImageId,
    pub bunny_image: ImageInfo,
    pub spawn: bool,
}

impl InputSystem {
    pub fn new(images: &Vec<ImageInfo>, bunny_image: ImageId) -> (r: InputSystem)
        requires
            bunny_image.id < images@.len(),
        ensures
            r.bunny_image_id == bunny_image,
            r.bunny_image == images@[bunny_image.id as int],
            r.spawn == false,
    {
        let info = images[bunny_image.id as usize];
        InputSystem { bunny_image_id: bunny_image, bunny_image: info, spawn: false }
    }

    /// One input tick: drain the event queue fully — the last press or
    /// release decides the new state — and, while pressed, queue a fixed
    /// batch of randomized spawn commands and raise the running count.
    pub fn run(&mut self, world: &mut World)
        requires
            old(world).wf(),
            coord_bounded(old(world).window_size.size),
            old(world).bunny_count.0 + SPAWN_COUNT <= u32::MAX,
        ensures
            final(world).wf(),
            final(self).bunny_image_id == old(self).bunny_image_id,
            final(self).bunny_image == old(self).bunny_image,
            final(self).spawn == pressed_after(old(world).input_queue@, old(self).spawn),
            final(world).input_queue@ =~= Seq::<InputEvent>::empty(),
            final(world).positions@ == old(world).positions@,
            final(world).velocities@ == old(world).velocities@,
            final(world).transforms@ == old(world).transforms@,
            final(world).sprites@ == old(world).sprites@,
            final(world).sprite_log == old(world).sprite_log,
            final(world).window_size == old(world).window_size,
            final(world).commands@.len() == old(world).commands@.len() + (
            if pressed_after(old(world).input_queue@, old(self).spawn) {
                SPAWN_COUNT as int
            } else {
                0int
            }),
            forall|i: int|
                0 <= i < old(world).commands@.len() ==> final(world).commands@[i] == old(
                    world,
                ).commands@[i],
            forall|i: int|
                old(world).commands@.len() <= i < final(world).commands@.len()
                    ==> spawn_command_ok(
                    #[trigger] final(world).commands@[i],
                    old(self).bunny_image_id,
                    old(self).bunny_image,
                    old(world).window_size.size,
                ),
            final(world).bunny_count.0 == old(world).bunny_count.0 + (
            if pressed_after(old(world).input_queue@, old(self).spawn) {
                SPAWN_COUNT as int
            } else {
                0int
            }),
    {
        let qn = world.input_queue.len();
        let mut i: usize = 0;
        while i < qn
            invariant
                i <= qn,
                qn == world.input_queue@.len(),
                *world == *old(world),
                self.bunny_image_id == old(self).bunny_image_id,
                self.bunny_image == old(self).bunny_image,
                self.spawn == pressed_after(
                    old(world).input_queue@.take(i as int),
                    old(self).spawn,
                ),
            decreases qn - i,
        {
            proof {
                assert(world.input_queue@.take(i + 1).len() == i + 1);
                assert(world.input_queue@.take(i + 1).last() == world.input_queue@[i as int]);
            }
            match world.input_queue[i] {
                InputEvent::MouseDown => {
                    self.spawn = true;
                },
                InputEvent::MouseUp => {
                    self.spawn = false;
                },
            }
            i = i + 1;
        }
        proof {
            assert(old(world).input_queue@.take(qn as int) =~= old(world).input_queue@);
        }
        world.input_queue.clear();
        if self.spawn {
            let size = world.window_size.size;
            let transform = Transform::from_image(&self.bunny_image);
            let sprite = Sprite::from_image(self.bunny_image_id);
            let mut spawned: u32 = 0;
            while spawned < SPAWN_COUNT
                invariant
                    spawned <= SPAWN_COUNT,
                    size == old(world).window_size.size,
                    coord_bounded(size),
                    transform == spec_transform_from_image(old(self).bunny_image),
                    sprite.batch_id == old(self).bunny_image_id.id,
                    self.bunny_image_id == old(self).bunny_image_id,
                    self.bunny_image == old(self).bunny_image,
                    self.spawn == pressed_after(old(world).input_queue@, old(self).spawn),
                    world.wf(),
                    world.input_queue@ =~= Seq::<InputEvent>::empty(),
                    world.positions@ == old(world).positions@,
                    world.velocities@ == old(world).velocities@,
                    world.transforms@ == old(world).transforms@,
                    world.sprites@ == old(world).sprites@,
                    world.sprite_log == old(world).sprite_log,
                    world.window_size == old(world).window_size,
                    world.bunny_count == old(world).bunny_count,
                    world.commands@.len() == old(world).commands@.len() + spawned,
                    forall|j: int|
                        0 <= j < old(world).commands@.len() ==> world.commands@[j] == old(
                            world,
                        ).commands@[j],
                    forall|j: int|
                        old(world).commands@.len() <= j < world.commands@.len()
                            ==> spawn_command_ok(
                            #[trigger] world.commands@[j],
                            old(self).bunny_image_id,
                            old(self).bunny_image,
                            old(world).window_size.size,
                        ),
                decreases SPAWN_COUNT - spawned,
            {
                let x = rand_i64_range(SPAWN_X_MIN, SPAWN_X_MAX);
                let vx = rand_i64_range(0, SPAWN_SPEED_LIMIT + 1);
                let vy_down = rand_i64_range(0, SPAWN_SPEED_LIMIT + 1);
                let cmd = SpawnCommand {
                    position: Position(Vec2i { x, y: size.y - SPAWN_Y_INSET }),
                    velocity: Velocity(Vec2i { x: vx, y: -vy_down }),
                    transform,
                    sprite,
                };
                world.lazy_spawn(cmd);
                spawned = spawned + 1;
            }
            let count = world.bunny_count.0;
            world.bunny_count = BunnyCount(count + SPAWN_COUNT);
        }
    }
}

} // verus!
