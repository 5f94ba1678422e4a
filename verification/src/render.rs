//! The render system: consumes the change tracker to keep batch
//! membership current, tracks the window for the orthographic projection,
//! and drives every batch's render pass in fixed registry order.

use vstd::prelude::*;
use crate::batch::{
    quads_of, positions_bounded, transforms_bounded, DrawCall, SpriteBatch, MAX_QUADS,
};
use crate::components::{ImageInfo, Position, Sprite, Transform};
use crate::math::Vec2i;
use crate::tracker::{ReaderId, SpriteEvent, SpriteLog};

verus! {

/// A sprite named a batch id with no corresponding image: a configuration
/// error, fatal at render time.
#[derive(Clone, Copy, Debug, PartialEq, Eq, Structural)]
pub enum RenderError {
    UnknownBatch(u32),
}

/// The orthographic projection the render pass uploads: the full window,
/// with the near plane at 1 and the far plane at -1.
#[derive(Clone, Copy, Debug, PartialEq, Eq, Structural)]
pub struct OrthoProjection {
    pub left: i64,
    pub right: i64,
    pub bottom: i64,
    pub top: i64,
    pub near: i64,
    pub far: i64,
}

/// A blending factor of the draw context.
#[derive(Clone, Copy, Debug, PartialEq, Eq, Structural)]
pub enum BlendFactor {
    SrcAlpha,
    OneMinusSrcAlpha,
}

/// The shared draw state set once per frame before any batch draws.
#[derive(Clone, Copy, Debug, PartialEq, Eq, Structural)]
pub struct DrawState {
    pub depth_test: bool,
    pub blend: bool,
    pub blend_source: BlendFactor,
    pub blend_destination: BlendFactor,
    pub clear_color: bool,
}

/// The fixed per-frame draw state: depth test off, alpha blending of
/// source alpha against one minus source alpha, colour buffer cleared.
pub fn frame_draw_state() -> (d: DrawState)
    ensures
        d == (DrawState {
            depth_test: false,
            blend: true,
            blend_source: BlendFactor::SrcAlpha,
            blend_destination: BlendFactor::OneMinusSrcAlpha,
            clear_color: true,
        }),
{
    DrawState {
        depth_test: false,
        blend: true,
        blend_source: BlendFactor::SrcAlpha,
        blend_destination: BlendFactor::OneMinusSrcAlpha,
        clear_color: true,
    }
}

/// The membership of every batch, as one set of slots per batch in
/// registry order.
pub open spec fn batch_sets(batches: Seq<SpriteBatch>) -> Seq<Set<u32>> {
    Seq::new(batches.len(), |i: int| batches[i].member_set())
}

/// How one drained event updates batch membership. An insertion resolves
/// the entity's live sprite and adds the slot to its batch, failing
/// (`None`) when the sprite names a batch that does not exist; an
/// insertion for an already-despawned entity is tolerated silently. A
/// removal uses the slot id directly — the sprite may already be gone —
/// and clears the slot from every batch.
pub open spec fn apply_event(
    sets: Seq<Set<u32>>,
    e: SpriteEvent,
    sprites: Seq<Option<Sprite>>,
) -> Option<Seq<Set<u32>>> {
    match e {
        SpriteEvent::Inserted(slot) => {
            if slot < sprites.len() && sprites[slot as int] is Some {
                let b = sprites[slot as int].unwrap().batch_id;
                if b < sets.len() {
                    Some(sets.update(b as int, sets[b as int].insert(slot)))
                } else {
                    None
                }
            } else {
                Some(sets)
            }
        },
        SpriteEvent::Removed(slot) => Some(Seq::new(sets.len(), |i: int| sets[i].remove(slot))),
    }
}

/// Folds a drained event sequence over batch membership, oldest first,
/// stopping at the first unresolvable insertion.
pub open spec fn apply_events(
    sets: Seq<Set<u32>>,
    evs: Seq<SpriteEvent>,
    sprites: Seq<Option<Sprite>>,
) -> Option<Seq<Set<u32>>>
    decreases evs.len(),
{
    if evs.len() == 0 {
        Some(sets)
    } else {
        match apply_event(sets, evs.first(), sprites) {
            None => None,
            Some(s) => apply_events(s, evs.drop_first(), sprites),
        }
    }
}

proof fn lemma_apply_events_push(
    sets: Seq<Set<u32>>,
    evs: Seq<SpriteEvent>,
    e: SpriteEvent,
    sprites: Seq<Option<Sprite>>,
)
    ensures
        apply_events(sets, evs.push(e), sprites) == (match apply_events(sets, evs, sprites) {
            None => None,
            Some(s) => apply_event(s, e, sprites),
        }),
    decreases evs.len(),
{
    if evs.len() == 0 {
        assert(evs.push(e).first() == e);
        assert(evs.push(e).drop_first() =~= Seq::<SpriteEvent>::empty());
        assert(apply_events(sets, evs, sprites) == Some(sets));
        match apply_event(sets, e, sprites) {
            None => {},
            Some(s2) => {
                assert(apply_events(s2, Seq::<SpriteEvent>::empty(), sprites) == Some(s2));
            },
        }
    } else {
        assert(evs.push(e).first() == evs.first());
        assert(evs.push(e).drop_first() =~= evs.drop_first().push(e));
        match apply_event(sets, evs.first(), sprites) {
            None => {},
            Some(s) => {
                lemma_apply_events_push(s, evs.drop_first(), e, sprites);
            },
        }
    }
}

proof fn lemma_apply_events_append(
    sets: Seq<Set<u32>>,
    a: Seq<SpriteEvent>,
    b: Seq<SpriteEvent>,
    sprites: Seq<Option<Sprite>>,
)
    ensures
        apply_events(sets, a + b, sprites) == (match apply_events(sets, a, sprites) {
            None => None,
            Some(s) => apply_events(s, b, sprites),
        }),
    decreases a.len(),
{
    if a.len() == 0 {
        assert(a + b =~= b);
    } else {
        assert((a + b).first() == a.first());
        assert((a + b).drop_first() =~= a.drop_first() + b);
        match apply_event(sets, a.first(), sprites) {
            None => {},
            Some(s) => {
                lemma_apply_events_append(s, a.drop_first(), b, sprites);
            },
        }
    }
}

/// The render system: the batch registry (one batch per image, in image
/// order), its change-log reader, and the window the projection covers.
pub struct RenderSystem {
    pub batches: Vec<SpriteBatch>,
    pub reader: ReaderId,
    pub window_size: Vec2i,
}

impl RenderSystem {
    /// Every batch of the registry is well formed.
    pub open spec fn batches_wf(self) -> bool {
        forall|i: int| 0 <= i < self.batches@.len() ==> (#[trigger] self.batches@[i]).wf()
    }

    /// Builds the registry from the image catalog, one empty batch per
    /// image, and registers this system's reader with the change log.
    pub fn new(images: &Vec<ImageInfo>, log: &mut SpriteLog, canvas_size: Vec2i) -> (r:
        RenderSystem)
        requires
            old(log).wf(),
        ensures
            r.batches_wf(),
            r.batches@.len() == images@.len(),
            forall|i: int|
                0 <= i < r.batches@.len() ==> (#[trigger] r.batches@[i]).member_set()
                    =~= Set::<u32>::empty() && r.batches@[i].len == -1 && r.batches@[i].new_len
                    == 0,
            r.reader.index == old(log).cursors@.len(),
            r.window_size == canvas_size,
            final(log).wf(),
            final(log).events@ == old(log).events@,
            final(log).cursors@ == old(log).cursors@.push(old(log).events@.len() as usize),
    {
        let reader = log.register_reader();
        let n = images.len();
        let mut batches: Vec<SpriteBatch> = Vec::new();
        let mut i: usize = 0;
        while i < n
            invariant
                i <= n,
                batches@.len() == i,
                forall|j: int|
                    0 <= j < i ==> (#[trigger] batches@[j]).wf() && batches@[j].members@
                        =~= Seq::<u32>::empty() && batches@[j].len == -1 && batches@[j].new_len
                        == 0,
            decreases n - i,
        {
            batches.push(SpriteBatch::new());
            i = i + 1;
        }
        proof {
            assert forall|i: int| 0 <= i < batches@.len() implies (#[trigger] batches@[i]).member_set()
                =~= Set::<u32>::empty() by {
                assert(batches@[i].members@ =~= Seq::<u32>::empty());
            }
        }
        RenderSystem { batches, reader, window_size: canvas_size }
    }

    /// Notes a new canvas size; the projection is derived from it. A
    /// matching size is a no-op.
    pub fn resize(&mut self, size: Vec2i)
        ensures
            final(self).window_size == size,
            final(self).batches@ == old(self).batches@,
            final(self).reader == old(self).reader,
    {
        if self.window_size.x == size.x && self.window_size.y == size.y {
            return ;
        }
        self.window_size = size;
    }

    /// The orthographic projection for the current window: left 0, right
    /// the width, bottom 0, top the height, near 1, far -1.
    pub fn projection(&self) -> (p: OrthoProjection)
        ensures
            p == (OrthoProjection {
                left: 0,
                right: self.window_size.x,
                bottom: 0,
                top: self.window_size.y,
                near: 1,
                far: -1i64,
            }),
    {
        OrthoProjection {
            left: 0,
            right: self.window_size.x,
            bottom: 0,
            top: self.window_size.y,
            near: 1,
            far: -1i64,
        }
    }

    /// One render tick. Drains the change tracker and folds every event
    /// into batch membership; then applies the window size; then renders
    /// every batch in registry order, collecting one draw call each —
    /// batches with no members included. Fails only when a drained
    /// insertion resolves to a live sprite whose batch id has no batch.
    pub fn run(
        &mut self,
        sprites: &Vec<Option<Sprite>>,
        transforms: &Vec<Option<Transform>>,
        positions: &Vec<Option<Position>>,
        log: &mut SpriteLog,
        window_size: Vec2i,
    ) -> (r: Result<Vec<DrawCall>, RenderError>)
        requires
            old(self).batches_wf(),
            old(log).wf(),
            old(self).reader.index < old(log).cursors@.len(),
            transforms_bounded(transforms@),
            positions_bounded(positions@),
            forall|b: int|
                0 <= b < old(self).batches@.len() ==> (#[trigger] old(self).batches@[b]).new_len + (
                old(log).events@.len() - old(log).cursors@[old(self).reader.index as int])
                    <= MAX_QUADS,
        ensures
            final(self).batches_wf(),
            final(self).reader == old(self).reader,
            final(self).batches@.len() == old(self).batches@.len(),
            final(log).wf(),
            final(log).events@ == old(log).events@,
            final(log).cursors@ == old(log).cursors@.update(
                old(self).reader.index as int,
                old(log).events@.len() as usize,
            ),
            ({
                let drained = old(log).events@.subrange(
                    old(log).cursors@[old(self).reader.index as int] as int,
                    old(log).events@.len() as int,
                );
                match r {
                    Ok(draws) => {
                        &&& apply_events(batch_sets(old(self).batches@), drained, sprites@)
                            == Some(batch_sets(final(self).batches@))
                        &&& final(self).window_size == window_size
                        &&& draws@.len() == final(self).batches@.len()
                        &&& forall|b: int|
                            0 <= b < draws@.len() ==> (#[trigger] draws@[b]).index_count == 6
                                * final(self).batches@[b].len
                        &&& forall|b: int|
                            0 <= b < final(self).batches@.len()
                                ==> (#[trigger] final(self).batches@[b]).len
                                >= old(self).batches@[b].len
                                && final(self).batches@[b].len >= final(self).batches@[b].new_len
                        &&& forall|b: int|
                            0 <= b < final(self).batches@.len()
                                ==> (#[trigger] final(self).batches@[b]).vertex_data@ == quads_of(
                                final(self).batches@[b].members@,
                                transforms@,
                                positions@,
                            )
                    },
                    Err(_) => apply_events(batch_sets(old(self).batches@), drained, sprites@)
                        is None,
                }
            }),
    {
        let events = log.read(self.reader);
        let m = events.len();
        let ghost sets0 = batch_sets(old(self).batches@);
        let ghost drained = events@;
        let mut k: usize = 0;
        while k < m
            invariant
                k <= m,
                m == events@.len(),
                drained == events@,
                sets0 == batch_sets(old(self).batches@),
                old(self).reader.index < old(log).cursors@.len(),
                log.wf(),
                log.events@ == old(log).events@,
                log.cursors@ == old(log).cursors@.update(
                    old(self).reader.index as int,
                    old(log).events@.len() as usize,
                ),
                drained == old(log).events@.subrange(
                    old(log).cursors@[old(self).reader.index as int] as int,
                    old(log).events@.len() as int,
                ),
                self.batches_wf(),
                self.batches@.len() == old(self).batches@.len(),
                self.reader == old(self).reader,
                self.window_size == old(self).window_size,
                apply_events(sets0, events@.take(k as int), sprites@) == Some(
                    batch_sets(self.batches@),
                ),
                forall|b: int|
                    0 <= b < self.batches@.len() ==> (#[trigger] self.batches@[b]).len == old(
                        self,
                    ).batches@[b].len,
                forall|b: int|
                    0 <= b < self.batches@.len() ==> (#[trigger] self.batches@[b]).new_len + (m
                        - k) <= MAX_QUADS,
            decreases m - k,
        {
            let e = events[k];
            proof {
                assert(events@.take(k + 1).drop_last() =~= events@.take(k as int));
                assert(events@.take(k + 1).last() == events@[k as int]);
                assert(events@.take(k + 1) =~= events@.take(k as int).push(e));
                lemma_apply_events_push(sets0, events@.take(k as int), e, sprites@);
            }
            let ghost mid_sets = batch_sets(self.batches@);
            match e {
                SpriteEvent::Inserted(slot) => {
                    let su = slot as usize;
                    if su < sprites.len() {
                        match &sprites[su] {
                            Some(sp) => {
                                let bid = sp.batch_id;
                                if (bid as usize) < self.batches.len() {
                                    let b = vstd::std_specs::vec::vec_index_mut(
                                        &mut self.batches,
                                        bid as usize,
                                    );
                                    b.add(slot);
                                    proof {
                                        assert(batch_sets(self.batches@) =~= mid_sets.update(
                                            bid as int,
                                            mid_sets[bid as int].insert(slot),
                                        ));
                                    }
                                } else {
                                    proof {
                                        assert(apply_event(mid_sets, e, sprites@) is None);
                                        assert(drained =~= drained.take(k + 1) + drained.skip(
                                            k + 1,
                                        ));
                                        lemma_apply_events_append(
                                            sets0,
                                            drained.take(k + 1),
                                            drained.skip(k + 1),
                                            sprites@,
                                        );
                                    }
                                    return Err(RenderError::UnknownBatch(bid));
                                }
                            },
                            None => {
                                // the entity is already gone: tolerated silently
                            },
                        }
                    }
                },
                SpriteEvent::Removed(slot) => {
                    let bn = self.batches.len();
                    let mut bi: usize = 0;
                    while bi < bn
                        invariant
                            bi <= bn,
                            bn == self.batches@.len(),
                            bn == mid_sets.len(),
                            bn == old(self).batches@.len(),
                            self.batches_wf(),
                            self.reader == old(self).reader,
                            self.window_size == old(self).window_size,
                            forall|b: int|
                                0 <= b < bi ==> (#[trigger] self.batches@[b]).member_set()
                                    == mid_sets[b].remove(slot),
                            forall|b: int|
                                bi <= b < bn ==> (#[trigger] self.batches@[b]).member_set()
                                    == mid_sets[b],
                            forall|b: int|
                                0 <= b < bn ==> (#[trigger] self.batches@[b]).len == old(
                                    self,
                                ).batches@[b].len,
                            forall|b: int|
                                0 <= b < bn ==> (#[trigger] self.batches@[b]).new_len + (m - k)
                                    <= MAX_QUADS,
                        decreases bn - bi,
                    {
                        let b = vstd::std_specs::vec::vec_index_mut(&mut self.batches, bi);
                        b.remove(slot);
                        bi = bi + 1;
                    }
                    proof {
                        assert(batch_sets(self.batches@) =~= Seq::new(
                            mid_sets.len(),
                            |i: int| mid_sets[i].remove(slot),
                        ));
                    }
                },
            }
            k = k + 1;
        }
        proof {
            assert(events@.take(m as int) =~= events@);
        }
        self.resize(window_size);
        let ghost mid = self.batches@;
        let bn = self.batches.len();
        let mut draws: Vec<DrawCall> = Vec::new();
        let mut bi: usize = 0;
        while bi < bn
            invariant
                bi <= bn,
                bn == self.batches@.len(),
                bn == mid.len(),
                draws@.len() == bi,
                old(self).reader.index < old(log).cursors@.len(),
                log.wf(),
                log.events@ == old(log).events@,
                log.cursors@ == old(log).cursors@.update(
                    old(self).reader.index as int,
                    old(log).events@.len() as usize,
                ),
                self.batches_wf(),
                self.reader == old(self).reader,
                self.window_size == window_size,
                transforms_bounded(transforms@),
                positions_bounded(positions@),
                forall|b: int| bi <= b < bn ==> #[trigger] self.batches@[b] == mid[b],
                forall|b: int| 0 <= b < bn ==> (#[trigger] mid[b]).wf(),
                forall|b: int| 0 <= b < bn ==> (#[trigger] mid[b]).new_len <= MAX_QUADS,
                forall|b: int|
                    0 <= b < bi ==> (#[trigger] self.batches@[b]).members@ == mid[b].members@
                        && self.batches@[b].new_len == mid[b].new_len,
                forall|b: int|
                    0 <= b < bi ==> (#[trigger] self.batches@[b]).len >= mid[b].len && self.batches@[b].len
                        >= self.batches@[b].new_len,
                forall|b: int|
                    0 <= b < bi ==> (#[trigger] self.batches@[b]).vertex_data@ == quads_of(
                        self.batches@[b].members@,
                        transforms@,
                        positions@,
                    ),
                forall|b: int|
                    0 <= b < bi ==> (#[trigger] draws@[b]).index_count == 6 * self.batches@[b].len,
            decreases bn - bi,
        {
            let b = vstd::std_specs::vec::vec_index_mut(&mut self.batches, bi);
            let d = b.render(transforms, positions);
            draws.push(d);
            bi = bi + 1;
        }
        proof {
            assert(batch_sets(self.batches@) =~= batch_sets(mid));
        }
        Ok(draws)
    }
}

} // verus!
