//! The entity world: one slot-indexed storage per component type, the
//! sprite change log, and the command buffer for deferred spawns.
//!
//! Entities are created together with all four components and destroyed
//! together; slots are never reused, so a slot id stays valid as a log key
//! even after despawn.

use vstd::prelude::*;
use crate::components::{Position, Sprite, Transform, Velocity, WindowSize};
use crate::input::{BunnyCount, InputEvent};
use crate::math::Vec2i;
use crate::tracker::{SpriteEvent, SpriteLog};

verus! {

/// A deferred spawn: the four components of one entity, applied by
/// `maintain` after all systems have run.
#[derive(Clone, Copy, Debug, PartialEq, Eq, Structural)]
pub struct SpawnCommand {
    pub position: Position,
    pub velocity: Velocity,
    pub transform: Transform,
    pub sprite: Sprite,
}

/// The insertion events that applying `n` spawn commands records, for
/// entities at slots `start, start + 1, ...`.
pub open spec fn spawned_events(start: int, n: nat) -> Seq<SpriteEvent> {
    Seq::new(n, |k: int| SpriteEvent::Inserted((start + k) as u32))
}

/// How many slots of a sprite storage currently hold a component.
pub open spec fn live_sprite_count(s: Seq<Option<Sprite>>) -> int
    decreases s.len(),
{
    if s.len() == 0 {
        0
    } else {
        live_sprite_count(s.drop_last()) + if s.last() is Some {
            1int
        } else {
            0int
        }
    }
}

/// The entity world.
pub struct World {
    pub positions: Vec<Option<Position>>,
    pub velocities: Vec<Option<Velocity>>,
    pub transforms: Vec<Option<Transform>>,
    pub sprites: Vec<Option<Sprite>>,
    pub sprite_log: SpriteLog,
    pub commands: Vec<SpawnCommand>,
    pub input_queue: Vec<InputEvent>,
    pub window_size: WindowSize,
    pub bunny_count: BunnyCount,
}

impl World {
    /// All four storages cover the same slots, every slot fits in a `u32`
    /// log key, and the change log is well formed.
    pub open spec fn wf(self) -> bool {
        &&& self.velocities@.len() == self.positions@.len()
        &&& self.transforms@.len() == self.positions@.len()
        &&& self.sprites@.len() == self.positions@.len()
        &&& self.positions@.len() <= 0xFFFF_FFFF
        &&& self.sprite_log.wf()
    }

    pub fn new(window: Vec2i) -> (r: World)
        ensures
            r.wf(),
            r.positions@ =~= Seq::<Option<Position>>::empty(),
            r.velocities@ =~= Seq::<Option<Velocity>>::empty(),
            r.transforms@ =~= Seq::<Option<Transform>>::empty(),
            r.sprites@ =~= Seq::<Option<Sprite>>::empty(),
            r.sprite_log.events@ =~= Seq::<SpriteEvent>::empty(),
            r.sprite_log.cursors@ =~= Seq::<usize>::empty(),
            r.commands@ =~= Seq::<SpawnCommand>::empty(),
            r.input_queue@ =~= Seq::<InputEvent>::empty(),
            r.window_size.size == window,
            r.bunny_count.0 == 0,
    {
        World {
            positions: Vec::new(),
            velocities: Vec::new(),
            transforms: Vec::new(),
            sprites: Vec::new(),
            sprite_log: SpriteLog::new(),
            commands: Vec::new(),
            input_queue: Vec::new(),
            window_size: WindowSize { size: window },
            bunny_count: BunnyCount(0),
        }
    }

    pub fn entity_count(&self) -> (n: usize)
        ensures
            n == self.positions@.len(),
    {
        self.positions.len()
    }

    /// Creates an entity immediately: appends all four components at a
    /// fresh slot and records the sprite insertion in the change log.
    pub fn spawn(
        &mut self,
        position: Position,
        velocity: Velocity,
        transform: Transform,
        sprite: Sprite,
    ) -> (slot: u32)
        requires
            old(self).wf(),
            old(self).positions@.len() < 0xFFFF_FFFF,
        ensures
            final(self).wf(),
            slot == old(self).positions@.len(),
            final(self).positions@ == old(self).positions@.push(Some(position)),
            final(self).velocities@ == old(self).velocities@.push(Some(velocity)),
            final(self).transforms@ == old(self).transforms@.push(Some(transform)),
            final(self).sprites@ == old(self).sprites@.push(Some(sprite)),
            final(self).sprite_log.events@ == old(self).sprite_log.events@.push(
                SpriteEvent::Inserted(slot),
            ),
            final(self).sprite_log.cursors@ == old(self).sprite_log.cursors@,
            final(self).commands@ == old(self).commands@,
            final(self).input_queue@ == old(self).input_queue@,
            final(self).window_size == old(self).window_size,
            final(self).bunny_count == old(self).bunny_count,
    {
        let slot = self.positions.len() as u32;
        self.positions.push(Some(position));
        self.velocities.push(Some(velocity));
        self.transforms.push(Some(transform));
        self.sprites.push(Some(sprite));
        self.sprite_log.record(SpriteEvent::Inserted(slot));
        slot
    }

    /// Queues a spawn to be applied by `maintain`, so the new entity
    /// becomes visible to change-log readers only at the next drain, never
    /// mid-tick.
    pub fn lazy_spawn(&mut self, cmd: SpawnCommand)
        ensures
            final(self).commands@ == old(self).commands@.push(cmd),
            final(self).positions@ == old(self).positions@,
            final(self).velocities@ == old(self).velocities@,
            final(self).transforms@ == old(self).transforms@,
            final(self).sprites@ == old(self).sprites@,
            final(self).sprite_log == old(self).sprite_log,
            final(self).input_queue@ == old(self).input_queue@,
            final(self).window_size == old(self).window_size,
            final(self).bunny_count == old(self).bunny_count,
    {
        self.commands.push(cmd);
    }

    /// Destroys an entity: clears all four of its components, recording
    /// the sprite removal if a sprite was present. The slot itself is not
    /// reused.
    pub fn despawn(&mut self, slot: u32)
        requires
            old(self).wf(),
            slot < old(self).positions@.len(),
        ensures
            final(self).wf(),
            final(self).positions@ == old(self).positions@.update(slot as int, None),
            final(self).velocities@ == old(self).velocities@.update(slot as int, None),
            final(self).transforms@ == old(self).transforms@.update(slot as int, None),
            final(self).sprites@ == old(self).sprites@.update(slot as int, None),
            old(self).sprites@[slot as int] is Some ==> final(self).sprite_log.events@ == old(
                self,
            ).sprite_log.events@.push(SpriteEvent::Removed(slot)),
            old(self).sprites@[slot as int] is None ==> final(self).sprite_log.events@ == old(
                self,
            ).sprite_log.events@,
            final(self).sprite_log.cursors@ == old(self).sprite_log.cursors@,
            final(self).commands@ == old(self).commands@,
            final(self).input_queue@ == old(self).input_queue@,
            final(self).window_size == old(self).window_size,
            final(self).bunny_count == old(self).bunny_count,
    {
        let su = slot as usize;
        let had_sprite = self.sprites[su].is_some();
        self.positions[su] = None;
        self.velocities[su] = None;
        self.transforms[su] = None;
        self.sprites[su] = None;
        if had_sprite {
            self.sprite_log.record(SpriteEvent::Removed(slot));
        }
    }

    /// Applies every queued spawn command, in order, then empties the
    /// command buffer. Each applied command appends one entity and records
    /// its insertion.
    pub fn maintain(&mut self)
        requires
            old(self).wf(),
            old(self).positions@.len() + old(self).commands@.len() <= 0xFFFF_FFFF,
        ensures
            final(self).wf(),
            final(self).commands@ =~= Seq::<SpawnCommand>::empty(),
            final(self).positions@ == old(self).positions@ + old(self).commands@.map_values(
                |c: SpawnCommand| Some(c.position),
            ),
            final(self).velocities@ == old(self).velocities@ + old(self).commands@.map_values(
                |c: SpawnCommand| Some(c.velocity),
            ),
            final(self).transforms@ == old(self).transforms@ + old(self).commands@.map_values(
                |c: SpawnCommand| Some(c.transform),
            ),
            final(self).sprites@ == old(self).sprites@ + old(self).commands@.map_values(
                |c: SpawnCommand| Some(c.sprite),
            ),
            final(self).sprite_log.events@ == old(self).sprite_log.events@ + spawned_events(
                old(self).positions@.len() as int,
                old(self).commands@.len(),
            ),
            final(self).sprite_log.cursors@ == old(self).sprite_log.cursors@,
            final(self).input_queue@ == old(self).input_queue@,
            final(self).window_size == old(self).window_size,
            final(self).bunny_count == old(self).bunny_count,
    {
        let n = self.commands.len();
        let ghost base = self.positions@.len() as int;
        let mut i: usize = 0;
        while i < n
            invariant
                i <= n,
                self.wf(),
                n == self.commands@.len(),
                self.commands@ == old(self).commands@,
                base == old(self).positions@.len() as int,
                base + n <= 0xFFFF_FFFF,
                self.positions@ == old(self).positions@ + old(self).commands@.take(
                    i as int,
                ).map_values(|c: SpawnCommand| Some(c.position)),
                self.velocities@ == old(self).velocities@ + old(self).commands@.take(
                    i as int,
                ).map_values(|c: SpawnCommand| Some(c.velocity)),
                self.transforms@ == old(self).transforms@ + old(self).commands@.take(
                    i as int,
                ).map_values(|c: SpawnCommand| Some(c.transform)),
                self.sprites@ == old(self).sprites@ + old(self).commands@.take(
                    i as int,
                ).map_values(|c: SpawnCommand| Some(c.sprite)),
                self.sprite_log.events@ == old(self).sprite_log.events@ + spawned_events(
                    base,
                    i as nat,
                ),
                self.sprite_log.cursors@ == old(self).sprite_log.cursors@,
                self.input_queue@ == old(self).input_queue@,
                self.window_size == old(self).window_size,
                self.bunny_count == old(self).bunny_count,
            decreases n - i,
        {
            let cmd = self.commands[i];
            self.spawn(cmd.position, cmd.velocity, cmd.transform, cmd.sprite);
            i = i + 1;
            proof {
                assert(self.positions@ =~= old(self).positions@ + old(self).commands@.take(
                    i as int,
                ).map_values(|c: SpawnCommand| Some(c.position)));
                assert(self.velocities@ =~= old(self).velocities@ + old(self).commands@.take(
                    i as int,
                ).map_values(|c: SpawnCommand| Some(c.velocity)));
                assert(self.transforms@ =~= old(self).transforms@ + old(self).commands@.take(
                    i as int,
                ).map_values(|c: SpawnCommand| Some(c.transform)));
                assert(self.sprites@ =~= old(self).sprites@ + old(self).commands@.take(
                    i as int,
                ).map_values(|c: SpawnCommand| Some(c.sprite)));
                assert(self.sprite_log.events@ =~= old(self).sprite_log.events@ + spawned_events(
                    base,
                    i as nat,
                ));
            }
        }
        self.commands.clear();
        proof {
            assert(old(self).commands@.take(n as int) =~= old(self).commands@);
        }
    }

    /// How many entities currently carry a sprite component.
    pub fn active_sprite_count(&self) -> (n: usize)
        ensures
            n == live_sprite_count(self.sprites@),
    {
        let m = self.sprites.len();
        let mut n: usize = 0;
        let mut i: usize = 0;
        while i < m
            invariant
                i <= m,
                m == self.sprites@.len(),
                n <= i,
                n == live_sprite_count(self.sprites@.take(i as int)),
            decreases m - i,
        {
            proof {
                assert(self.sprites@.take(i + 1).drop_last() =~= self.sprites@.take(i as int));
                assert(self.sprites@.take(i + 1).last() == self.sprites@[i as int]);
            }
            if self.sprites[i].is_some() {
                n = n + 1;
            }
            i = i + 1;
        }
        proof {
            assert(self.sprites@.take(m as int) =~= self.sprites@);
        }
        n
    }
}

} // verus!
