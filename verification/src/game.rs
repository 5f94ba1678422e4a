//! The game facade the frame driver calls: queue input, then once per
//! animation tick run input bridge, simulation and render pass in that
//! fixed order, and commit deferred spawns afterwards.

use vstd::prelude::*;
use crate::batch::{positions_bounded, transforms_bounded, DrawCall, MAX_QUADS};
use crate::components::{
    spec_transform_from_image, ImageId, ImageInfo, Position, Sprite, Transform, Velocity,
};
use crate::input::{
    pressed_after, spawn_command_ok, BunnyCount, InputEvent, InputSystem, SPAWN_COUNT,
};
use crate::math::{coord_bounded, Vec2i, COORD_LIMIT};
use crate::render::{apply_events, batch_sets, RenderError, RenderSystem};
use crate::rng::rand_i64_range;
use crate::sim::{
    bounce_outcome, integrated_position, integrated_velocity, velocities_bounded, MoveSystem,
};
use crate::tracker::SpriteEvent;
use crate::world::{spawned_events, World};

verus! {

/// How many entities populate the world at startup.
pub const INITIAL_COUNT: u32 = 3;

/// Largest initial speed per axis of the startup population: four pixels
/// per tick, in any direction.
pub const INITIAL_SPEED_LIMIT: i64 = 16;

/// The whole engine: the entity world and the three per-tick systems.
pub struct Game {
    pub world: World,
    pub input_system: InputSystem,
    pub move_system: MoveSystem,
    pub render_system: RenderSystem,
}

impl Game {
    /// The world is well formed, every batch of the registry is well
    /// formed, and the render system's reader is registered with the
    /// world's change log.
    pub open spec fn wf(self) -> bool {
        &&& self.world.wf()
        &&& self.render_system.batches_wf()
        &&& self.render_system.reader.index < self.world.sprite_log.cursors@.len()
    }

    /// Builds the world, the batch registry (one batch per catalog image)
    /// and the systems, then spawns the startup population at random
    /// positions inside the window, drawn with the designated image. The
    /// render system registers its change-log reader before any entity
    /// exists, so the startup population is delivered at the first drain.
    pub fn new(images: &Vec<ImageInfo>, bunny_image: ImageId, canvas_size: Vec2i) -> (g: Game)
        requires
            bunny_image.id < images@.len(),
            0 < canvas_size.x <= COORD_LIMIT,
            0 < canvas_size.y <= COORD_LIMIT,
        ensures
            g.wf(),
            g.world.window_size.size == canvas_size,
            g.world.positions@.len() == INITIAL_COUNT,
            g.world.velocities@.len() == INITIAL_COUNT,
            g.world.transforms@.len() == INITIAL_COUNT,
            g.world.sprites@.len() == INITIAL_COUNT,
            positions_bounded(g.world.positions@),
            velocities_bounded(g.world.velocities@),
            transforms_bounded(g.world.transforms@),
            forall|j: int|
                0 <= j < INITIAL_COUNT ==> (#[trigger] g.world.sprites@[j]) == Some(
                    Sprite { batch_id: bunny_image.id },
                ),
            forall|j: int|
                0 <= j < INITIAL_COUNT ==> (#[trigger] g.world.transforms@[j]) == Some(
                    spec_transform_from_image(images@[bunny_image.id as int]),
                ),
            forall|j: int|
                0 <= j < INITIAL_COUNT ==> (#[trigger] g.world.positions@[j]) is Some
                    && 0 <= g.world.positions@[j].unwrap().0.x < canvas_size.x
                    && 0 <= g.world.positions@[j].unwrap().0.y < canvas_size.y,
            g.world.sprite_log.events@ =~= spawned_events(0, INITIAL_COUNT as nat),
            g.world.sprite_log.cursors@ =~= seq![0usize],
            g.world.commands@ =~= Seq::<crate::world::SpawnCommand>::empty(),
            g.world.input_queue@ =~= Seq::<InputEvent>::empty(),
            g.world.bunny_count.0 == INITIAL_COUNT,
            g.render_system.batches@.len() == images@.len(),
            forall|b: int|
                0 <= b < g.render_system.batches@.len()
                    ==> (#[trigger] g.render_system.batches@[b]).member_set()
                    =~= Set::<u32>::empty() && g.render_system.batches@[b].len == -1
                    && g.render_system.batches@[b].new_len == 0,
            g.render_system.reader.index == 0,
            g.render_system.window_size == canvas_size,
            g.input_system.bunny_image_id == bunny_image,
            g.input_system.bunny_image == images@[bunny_image.id as int],
            g.input_system.spawn == false,
    {
        let mut world = World::new(canvas_size);
        let render_system = RenderSystem::new(images, &mut world.sprite_log, canvas_size);
        let input_system = InputSystem::new(images, bunny_image);
        let transform = Transform::from_image(&input_system.bunny_image);
        let sprite = Sprite::from_image(bunny_image);
        let mut i: u32 = 0;
        while i < INITIAL_COUNT
            invariant
                i <= INITIAL_COUNT,
                0 < canvas_size.x <= COORD_LIMIT,
                0 < canvas_size.y <= COORD_LIMIT,
                world.wf(),
                world.positions@.len() == i,
                world.velocities@.len() == i,
                world.transforms@.len() == i,
                world.sprites@.len() == i,
                transform == spec_transform_from_image(input_system.bunny_image),
                input_system.bunny_image == images@[bunny_image.id as int],
                bunny_image.id < images@.len(),
                sprite == (Sprite { batch_id: bunny_image.id }),
                forall|j: int|
                    0 <= j < i ==> (#[trigger] world.sprites@[j]) == Some(
                        Sprite { batch_id: bunny_image.id },
                    ),
                forall|j: int|
                    0 <= j < i ==> (#[trigger] world.transforms@[j]) == Some(
                        spec_transform_from_image(images@[bunny_image.id as int]),
                    ),
                forall|j: int|
                    0 <= j < i ==> (#[trigger] world.positions@[j]) is Some
                        && 0 <= world.positions@[j].unwrap().0.x < canvas_size.x
                        && 0 <= world.positions@[j].unwrap().0.y < canvas_size.y,
                forall|j: int|
                    0 <= j < i ==> (#[trigger] world.velocities@[j]) is Some
                        && -INITIAL_SPEED_LIMIT <= world.velocities@[j].unwrap().0.x
                        <= INITIAL_SPEED_LIMIT && -INITIAL_SPEED_LIMIT
                        <= world.velocities@[j].unwrap().0.y <= INITIAL_SPEED_LIMIT,
                world.sprite_log.events@ =~= spawned_events(0, i as nat),
                world.sprite_log.cursors@ =~= seq![0usize],
                world.commands@ =~= Seq::<crate::world::SpawnCommand>::empty(),
                world.input_queue@ =~= Seq::<InputEvent>::empty(),
                world.window_size.size == canvas_size,
                world.bunny_count.0 == 0,
            decreases INITIAL_COUNT - i,
        {
            let x = rand_i64_range(0, canvas_size.x);
            let y = rand_i64_range(0, canvas_size.y);
            let vx = rand_i64_range(-INITIAL_SPEED_LIMIT, INITIAL_SPEED_LIMIT + 1);
            let vy = rand_i64_range(-INITIAL_SPEED_LIMIT, INITIAL_SPEED_LIMIT + 1);
            world.spawn(
                Position(Vec2i { x, y }),
                Velocity(Vec2i { x: vx, y: vy }),
                transform,
                sprite,
            );
            i = i + 1;
            proof {
                assert(world.sprite_log.events@ =~= spawned_events(0, i as nat));
            }
        }
        world.bunny_count = BunnyCount(INITIAL_COUNT);
        Game { world, input_system, move_system: MoveSystem, render_system }
    }

    /// Hands a batch of externally queued input events to the world's
    /// queue; ownership of each event transfers here. The given vector is
    /// drained empty.
    pub fn process_events(&mut self, events: &mut Vec<InputEvent>)
        ensures
            final(self).world.input_queue@ == old(self).world.input_queue@ + old(events)@,
            final(events)@ =~= Seq::<InputEvent>::empty(),
            final(self).world.positions@ == old(self).world.positions@,
            final(self).world.velocities@ == old(self).world.velocities@,
            final(self).world.transforms@ == old(self).world.transforms@,
            final(self).world.sprites@ == old(self).world.sprites@,
            final(self).world.sprite_log == old(self).world.sprite_log,
            final(self).world.commands@ == old(self).world.commands@,
            final(self).world.window_size == old(self).world.window_size,
            final(self).world.bunny_count == old(self).world.bunny_count,
            final(self).input_system == old(self).input_system,
            final(self).render_system == old(self).render_system,
    {
        self.world.input_queue.append(events);
    }

    /// The running count of spawned entities, for diagnostics.
    pub fn bunny_count(&self) -> (n: u32)
        ensures
            n == self.world.bunny_count.0,
    {
        self.world.bunny_count.0
    }

    /// How many entities currently carry a sprite component.
    pub fn active_sprite_count(&self) -> (n: usize)
        ensures
            n == crate::world::live_sprite_count(self.world.sprites@),
    {
        self.world.active_sprite_count()
    }

    /// One animation tick: input bridge, then simulation, then render
    /// pass, then world maintenance, in that order. The render pass sees
    /// the entity set as it stood when the tick began — deferred spawns
    /// join the world only at the end, and reach the batches at the next
    /// tick's drain.
    pub fn run_world(&mut self, canvas_size: Vec2i) -> (r: Result<
        Vec<DrawCall>,
        RenderError,
    >)
        requires
            old(self).wf(),
            0 <= canvas_size.x <= COORD_LIMIT,
            0 <= canvas_size.y <= COORD_LIMIT,
            positions_bounded(old(self).world.positions@),
            velocities_bounded(old(self).world.velocities@),
            transforms_bounded(old(self).world.transforms@),
            old(self).world.bunny_count.0 + SPAWN_COUNT <= u32::MAX,
            old(self).world.positions@.len() + old(self).world.commands@.len() + SPAWN_COUNT
                <= 0xFFFF_FFFF,
            forall|b: int|
                0 <= b < old(self).render_system.batches@.len()
                    ==> (#[trigger] old(self).render_system.batches@[b]).new_len + (
                old(self).world.sprite_log.events@.len()
                    - old(self).world.sprite_log.cursors@[old(
                    self,
                ).render_system.reader.index as int]) <= MAX_QUADS,
        ensures
            final(self).wf(),
            final(self).world.commands@ =~= Seq::<crate::world::SpawnCommand>::empty(),
            final(self).world.input_queue@ =~= Seq::<InputEvent>::empty(),
            final(self).world.window_size.size == canvas_size,
            final(self).input_system.spawn == pressed_after(
                old(self).world.input_queue@,
                old(self).input_system.spawn,
            ),
            final(self).world.bunny_count.0 == old(self).world.bunny_count.0 + (
            if pressed_after(old(self).world.input_queue@, old(self).input_system.spawn) {
                SPAWN_COUNT as int
            } else {
                0int
            }),
            final(self).world.positions@.len() == old(self).world.positions@.len() + old(
                self,
            ).world.commands@.len() + (
            if pressed_after(old(self).world.input_queue@, old(self).input_system.spawn) {
                SPAWN_COUNT as int
            } else {
                0int
            }),
            // the simulation: every entity that had both components was
            // integrated and boundary-corrected against this window
            forall|i: int|
                0 <= i < old(self).world.positions@.len() && (#[trigger] old(
                    self,
                ).world.positions@[i]) is Some && old(self).world.velocities@[i] is Some
                    ==> final(self).world.positions@[i] is Some
                    && final(self).world.velocities@[i] is Some && bounce_outcome(
                    integrated_position(
                        old(self).world.positions@[i].unwrap(),
                        old(self).world.velocities@[i].unwrap(),
                    ),
                    integrated_velocity(old(self).world.velocities@[i].unwrap()),
                    canvas_size,
                    final(self).world.positions@[i].unwrap(),
                    final(self).world.velocities@[i].unwrap(),
                ),
            forall|i: int|
                0 <= i < old(self).world.positions@.len() && !((#[trigger] old(
                    self,
                ).world.positions@[i]) is Some && old(self).world.velocities@[i] is Some)
                    ==> final(self).world.positions@[i] == old(self).world.positions@[i]
                    && final(self).world.velocities@[i] == old(self).world.velocities@[i],
            // sprites are only appended by maintenance, never changed
            forall|i: int|
                0 <= i < old(self).world.sprites@.len()
                    ==> (#[trigger] final(self).world.sprites@[i]) == old(
                    self,
                ).world.sprites@[i],
            // maintenance applied the commands queued before this tick ...
            forall|i: int|
                old(self).world.positions@.len() <= i < old(self).world.positions@.len() + old(
                    self,
                ).world.commands@.len() ==> {
                    let c = old(self).world.commands@[i - old(self).world.positions@.len()];
                    (#[trigger] final(self).world.positions@[i]) == Some(c.position)
                        && final(self).world.velocities@[i] == Some(c.velocity)
                        && final(self).world.transforms@[i] == Some(c.transform)
                        && final(self).world.sprites@[i] == Some(c.sprite)
                },
            // ... and then this tick's own spawns, each inside the spawn band
            forall|i: int|
                old(self).world.positions@.len() + old(self).world.commands@.len() <= i
                    < final(self).world.positions@.len()
                    ==> (#[trigger] final(self).world.positions@[i]) is Some
                    && final(self).world.velocities@[i] is Some
                    && final(self).world.transforms@[i] is Some
                    && final(self).world.sprites@[i] is Some
                    && spawn_command_ok(
                    crate::world::SpawnCommand {
                        position: final(self).world.positions@[i].unwrap(),
                        velocity: final(self).world.velocities@[i].unwrap(),
                        transform: final(self).world.transforms@[i].unwrap(),
                        sprite: final(self).world.sprites@[i].unwrap(),
                    },
                    old(self).input_system.bunny_image_id,
                    old(self).input_system.bunny_image,
                    canvas_size,
                ),
            // every spawn of this tick was recorded after the drain, so a
            // reader sees it only from the next tick on
            final(self).world.sprite_log.events@ == old(self).world.sprite_log.events@
                + spawned_events(
                old(self).world.positions@.len() as int,
                (old(self).world.commands@.len() + (
                if pressed_after(old(self).world.input_queue@, old(self).input_system.spawn) {
                    SPAWN_COUNT as int
                } else {
                    0int
                })) as nat,
            ),
            final(self).world.sprite_log.cursors@ == old(self).world.sprite_log.cursors@.update(
                old(self).render_system.reader.index as int,
                old(self).world.sprite_log.events@.len() as usize,
            ),
            // the render pass consumed exactly the events recorded before
            // this tick; deferred spawns were recorded after the drain
            ({
                let drained = old(self).world.sprite_log.events@.subrange(
                    old(self).world.sprite_log.cursors@[old(
                        self,
                    ).render_system.reader.index as int] as int,
                    old(self).world.sprite_log.events@.len() as int,
                );
                match r {
                    Ok(draws) => {
                        &&& apply_events(
                            batch_sets(old(self).render_system.batches@),
                            drained,
                            old(self).world.sprites@,
                        ) == Some(batch_sets(final(self).render_system.batches@))
                        &&& final(self).render_system.window_size == canvas_size
                        &&& draws@.len() == final(self).render_system.batches@.len()
                        &&& forall|b: int|
                            0 <= b < draws@.len() ==> (#[trigger] draws@[b]).index_count == 6
                                * final(self).render_system.batches@[b].len
                        &&& forall|b: int|
                            0 <= b < final(self).render_system.batches@.len()
                                ==> (#[trigger] final(self).render_system.batches@[b]).len
                                >= old(self).render_system.batches@[b].len
                                && final(self).render_system.batches@[b].len
                                >= final(self).render_system.batches@[b].new_len
                    },
                    Err(_) => apply_events(
                        batch_sets(old(self).render_system.batches@),
                        drained,
                        old(self).world.sprites@,
                    ) is None,
                }
            }),
    {
        self.world.window_size = crate::components::WindowSize { size: canvas_size };
        self.input_system.run(&mut self.world);
        self.move_system.run(
            &mut self.world.positions,
            &mut self.world.velocities,
            canvas_size,
        );
        proof {
            assert forall|i: int|
                0 <= i < self.world.positions@.len() && #[trigger] self.world.positions@[i]
                    is Some implies coord_bounded(self.world.positions@[i].unwrap().0) by {
                if old(self).world.positions@[i] is Some && old(self).world.velocities@[i]
                    is Some {
                } else {
                }
            }
        }
        let r = self.render_system.run(
            &self.world.sprites,
            &self.world.transforms,
            &self.world.positions,
            &mut self.world.sprite_log,
            canvas_size,
        );
        self.world.maintain();
        r
    }
}

} // verus!
