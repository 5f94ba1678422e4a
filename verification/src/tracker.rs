//! The change tracker: an append-only log of sprite-component insertions and
//! removals, read through per-reader cursors. Each reader sees every change
//! recorded after it registered, once and in order.

use vstd::prelude::*;

verus! {

/// One recorded change of the sprite storage, by entity slot.
#[derive(Clone, Copy, Debug, PartialEq, Eq, Structural)]
pub enum SpriteEvent {
    Inserted(u32),
    Removed(u32),
}

/// A cursor into the sprite log, handed out by `register_reader`.
#[derive(Clone, Copy, Debug, PartialEq, Eq, Structural)]
pub struct ReaderId {
    pub index: usize,
}

/// The append-only log together with every reader's cursor.
pub struct SpriteLog {
    pub events: Vec<SpriteEvent>,
    pub cursors: Vec<usize>,
}

impl SpriteLog {
    /// Every cursor points into the log or just past its end.
    pub open spec fn wf(self) -> bool {
        forall|i: int| 0 <= i < self.cursors@.len() ==> #[trigger] self.cursors@[i] <= self.events@.len()
    }

    pub fn new() -> (r: SpriteLog)
        ensures
            r.events@ =~= Seq::<SpriteEvent>::empty(),
            r.cursors@ =~= Seq::<usize>::empty(),
            r.wf(),
    {
        SpriteLog { events: Vec::new(), cursors: Vec::new() }
    }

    /// Hands out a fresh reader whose cursor starts at the current end of the
    /// log, so it sees exactly the changes recorded from now on.
    pub fn register_reader(&mut self) -> (r: ReaderId)
        requires
            old(self).wf(),
        ensures
            final(self).wf(),
            final(self).events@ == old(self).events@,
            final(self).cursors@ == old(self).cursors@.push(old(self).events@.len() as usize),
            r.index == old(self).cursors@.len(),
    {
        let r = ReaderId { index: self.cursors.len() };
        let end = self.events.len();
        self.cursors.push(end);
        r
    }

    /// Appends one change to the log; no cursor moves.
    pub fn record(&mut self, e: SpriteEvent)
        requires
            old(self).wf(),
        ensures
            final(self).wf(),
            final(self).events@ == old(self).events@.push(e),
            final(self).cursors@ == old(self).cursors@,
    {
        self.events.push(e);
    }

    /// The events recorded since `r` last read, oldest first. Advances `r`'s
    /// cursor past them: a change already delivered is never delivered again.
    pub fn read(&mut self, r: ReaderId) -> (evs: Vec<SpriteEvent>)
        requires
            old(self).wf(),
            r.index < old(self).cursors@.len(),
        ensures
            final(self).wf(),
            final(self).events@ == old(self).events@,
            final(self).cursors@ == old(self).cursors@.update(
                r.index as int,
                old(self).events@.len() as usize,
            ),
            evs@ == old(self).events@.subrange(
                old(self).cursors@[r.index as int] as int,
                old(self).events@.len() as int,
            ),
    {
        let start = self.cursors[r.index];
        let end = self.events.len();
        let mut evs: Vec<SpriteEvent> = Vec::new();
        let mut i = start;
        while i < end
            invariant
                start <= i <= end,
                end == self.events@.len(),
                start <= end,
                evs@ == self.events@.subrange(start as int, i as int),
            decreases end - i,
        {
            let e = self.events[i];
            evs.push(e);
            proof {
                assert(self.events@.subrange(start as int, i + 1 as int)
                    =~= self.events@.subrange(start as int, i as int).push(self.events@[i as int]));
            }
            i = i + 1;
        }
        self.cursors[r.index] = end;
        evs
    }

    /// How many events a reader has not yet seen.
    pub fn unread(&self, r: ReaderId) -> (n: usize)
        requires
            self.wf(),
            r.index < self.cursors@.len(),
        ensures
            n == self.events@.len() - self.cursors@[r.index as int],
    {
        self.events.len() - self.cursors[r.index]
    }
}

} // verus!
