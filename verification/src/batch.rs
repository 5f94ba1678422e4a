//! One draw batch per image: the entity membership set, the growable vertex
//! and index buffers, and the per-frame geometry regeneration.

use vstd::prelude::*;
use crate::math::{Vec2i, coord_bounded};
use crate::components::{Position, Transform};

verus! {

/// The largest number of quads one batch can hold: the index buffer uses
/// 16-bit indices and quad `i` names vertex `4*i + 3`, so `4*i + 3` must
/// stay within `u16`.
pub const MAX_QUADS: i64 = 16384;

/// One corner of a sprite quad: a position and a texture coordinate at a
/// unit-square corner (0 or 65535 per axis).
#[derive(Clone, Copy, Debug, PartialEq, Eq, Structural)]
pub struct Vertex {
    pub vertex: Vec2i,
    pub tex_u: u16,
    pub tex_v: u16,
}

/// The four vertices of one sprite quad, in the fixed winding the index
/// pattern expects.
#[derive(Clone, Copy, Debug, PartialEq, Eq, Structural)]
pub struct VertexData {
    pub v1: Vertex,
    pub v2: Vertex,
    pub v3: Vertex,
    pub v4: Vertex,
}

/// The six indices of one quad: two triangles over its four vertices.
#[derive(Clone, Copy, Debug, PartialEq, Eq, Structural)]
pub struct IndexQuad {
    pub i0: u16,
    pub i1: u16,
    pub i2: u16,
    pub i3: u16,
    pub i4: u16,
    pub i5: u16,
}

/// What one batch asks the draw context to do: one indexed draw call over
/// this many indices.
#[derive(Clone, Copy, Debug, PartialEq, Eq, Structural)]
pub struct DrawCall {
    pub index_count: i64,
}

/// Strictly ascending: no slot occurs twice.
pub open spec fn sorted_strict(s: Seq<u32>) -> bool {
    forall|i: int, j: int| 0 <= i < j < s.len() ==> s[i] < s[j]
}

/// Quad `i` uses indices `[4i, 4i+1, 4i+2, 4i+2, 4i+3, 4i+1]`.
pub open spec fn index_pattern(q: IndexQuad, i: int) -> bool {
    &&& q.i0 == 4 * i
    &&& q.i1 == 4 * i + 1
    &&& q.i2 == 4 * i + 2
    &&& q.i3 == 4 * i + 2
    &&& q.i4 == 4 * i + 3
    &&& q.i5 == 4 * i + 1
}

/// The quad of a sprite at `p` with half-extents `t`: the four corners
/// `p-right+up, p+right+up, p-right-up, p+right-up`, with texture
/// coordinates at the four unit-square corners.
pub open spec fn spec_quad(p: Vec2i, t: Transform) -> VertexData {
    VertexData {
        v1: Vertex {
            vertex: Vec2i {
                x: (p.x - t.right.x + t.up.x) as i64,
                y: (p.y - t.right.y + t.up.y) as i64,
            },
            tex_u: 0,
            tex_v: 0,
        },
        v2: Vertex {
            vertex: Vec2i {
                x: (p.x + t.right.x + t.up.x) as i64,
                y: (p.y + t.right.y + t.up.y) as i64,
            },
            tex_u: 65535,
            tex_v: 0,
        },
        v3: Vertex {
            vertex: Vec2i {
                x: (p.x - t.right.x - t.up.x) as i64,
                y: (p.y - t.right.y - t.up.y) as i64,
            },
            tex_u: 0,
            tex_v: 65535,
        },
        v4: Vertex {
            vertex: Vec2i {
                x: (p.x + t.right.x - t.up.x) as i64,
                y: (p.y + t.right.y - t.up.y) as i64,
            },
            tex_u: 65535,
            tex_v: 65535,
        },
    }
}

/// Slot `s` has both a transform and a position: only such members get
/// geometry this frame.
pub open spec fn slot_drawable(
    s: u32,
    ts: Seq<Option<Transform>>,
    ps: Seq<Option<Position>>,
) -> bool {
    &&& s < ts.len()
    &&& ts[s as int] is Some
    &&& s < ps.len()
    &&& ps[s as int] is Some
}

/// The geometry a batch regenerates: one quad for each member slot that
/// still has both components, in ascending slot order.
pub open spec fn quads_of(
    members: Seq<u32>,
    ts: Seq<Option<Transform>>,
    ps: Seq<Option<Position>>,
) -> Seq<VertexData>
    decreases members.len(),
{
    if members.len() == 0 {
        Seq::empty()
    } else {
        let rest = quads_of(members.drop_last(), ts, ps);
        let s = members.last();
        if slot_drawable(s, ts, ps) {
            rest.push(spec_quad(ps[s as int].unwrap().0, ts[s as int].unwrap()))
        } else {
            rest
        }
    }
}

/// Every transform a storage holds is coordinate-bounded.
pub open spec fn transforms_bounded(ts: Seq<Option<Transform>>) -> bool {
    forall|i: int|
        0 <= i < ts.len() && #[trigger] ts[i] is Some ==> coord_bounded(ts[i].unwrap().up)
            && coord_bounded(ts[i].unwrap().right)
}

/// Every position a storage holds is coordinate-bounded.
pub open spec fn positions_bounded(ps: Seq<Option<Position>>) -> bool {
    forall|i: int| 0 <= i < ps.len() && #[trigger] ps[i] is Some ==> coord_bounded(ps[i].unwrap().0)
}

proof fn lemma_quads_of_len(
    members: Seq<u32>,
    ts: Seq<Option<Transform>>,
    ps: Seq<Option<Position>>,
)
    ensures
        quads_of(members, ts, ps).len() <= members.len(),
    decreases members.len(),
{
    if members.len() > 0 {
        lemma_quads_of_len(members.drop_last(), ts, ps);
    }
}

/// A strictly sorted sequence of 32-bit slots places its `i`-th element at
/// or above `i`.
proof fn lemma_sorted_strict_lower(s: Seq<u32>, i: int)
    requires
        sorted_strict(s),
        0 <= i < s.len(),
    ensures
        s[i] >= i,
    decreases i,
{
    if i > 0 {
        lemma_sorted_strict_lower(s, i - 1);
    }
}

/// A strictly sorted sequence of 32-bit slots cannot have more elements
/// than there are distinct slots.
proof fn lemma_sorted_strict_len(s: Seq<u32>)
    requires
        sorted_strict(s),
    ensures
        s.len() <= 0x1_0000_0000,
{
    if s.len() > 0x1_0000_0000 {
        lemma_sorted_strict_lower(s, 0x1_0000_0000);
    }
}

impl VertexData {
    /// The four-vertex quad for one sprite.
    pub fn new(position: Vec2i, transform: &Transform) -> (r: VertexData)
        requires
            coord_bounded(position),
            coord_bounded(transform.up),
            coord_bounded(transform.right),
        ensures
            r == spec_quad(position, *transform),
    {
        let p = position;
        let u = transform.up;
        let rt = transform.right;
        VertexData {
            v1: Vertex {
                vertex: Vec2i { x: p.x - rt.x + u.x, y: p.y - rt.y + u.y },
                tex_u: 0,
                tex_v: 0,
            },
            v2: Vertex {
                vertex: Vec2i { x: p.x + rt.x + u.x, y: p.y + rt.y + u.y },
                tex_u: 65535,
                tex_v: 0,
            },
            v3: Vertex {
                vertex: Vec2i { x: p.x - rt.x - u.x, y: p.y - rt.y - u.y },
                tex_u: 0,
                tex_v: 65535,
            },
            v4: Vertex {
                vertex: Vec2i { x: p.x + rt.x - u.x, y: p.y + rt.y - u.y },
                tex_u: 65535,
                tex_v: 65535,
            },
        }
    }
}

/// One growable draw batch: the entity slots assigned to one image, the
/// last materialized buffer capacity `len` (quads), the target capacity
/// `new_len`, and the CPU-side vertex and index data.
pub struct SpriteBatch {
    pub members: Vec<u32>,
    pub len: i64,
    pub new_len: i64,
    pub vertex_data: Vec<VertexData>,
    pub index_data: Vec<IndexQuad>,
}

impl SpriteBatch {
    /// Membership is a strictly sorted slot list; `new_len` counts it;
    /// capacity starts at the -1 sentinel, never exceeds `MAX_QUADS`, and
    /// once materialized the index buffer holds the full pattern for it.
    pub open spec fn wf(self) -> bool {
        &&& sorted_strict(self.members@)
        &&& self.new_len == self.members@.len()
        &&& -1 <= self.len <= MAX_QUADS
        &&& (self.len >= 0 ==> self.index_data@.len() == self.len)
        &&& (self.len < 0 ==> self.index_data@.len() == 0)
        &&& (forall|i: int|
            0 <= i < self.index_data@.len() ==> index_pattern(#[trigger] self.index_data@[i], i))
    }

    /// The set of slots currently assigned to this batch.
    pub open spec fn member_set(self) -> Set<u32> {
        self.members@.to_set()
    }

    pub fn new() -> (r: SpriteBatch)
        ensures
            r.wf(),
            r.members@ =~= Seq::<u32>::empty(),
            r.len == -1,
            r.new_len == 0,
            r.vertex_data@ =~= Seq::<VertexData>::empty(),
            r.index_data@ =~= Seq::<IndexQuad>::empty(),
    {
        SpriteBatch {
            members: Vec::new(),
            len: -1,
            new_len: 0,
            vertex_data: Vec::new(),
            index_data: Vec::new(),
        }
    }

    /// Whether `slot` is currently a member.
    pub fn is_member(&self, slot: u32) -> (r: bool)
        ensures
            r == self.members@.contains(slot),
    {
        let n = self.members.len();
        let mut i: usize = 0;
        while i < n
            invariant
                i <= n,
                n == self.members@.len(),
                forall|j: int| 0 <= j < i ==> self.members@[j] != slot,
            decreases n - i,
        {
            if self.members[i] == slot {
                return true;
            }
            i = i + 1;
        }
        false
    }

    /// Marks `slot` as a member; a slot already present is left alone
    /// (adding is idempotent), otherwise the target length grows by one.
    pub fn add(&mut self, slot: u32)
        requires
            old(self).wf(),
        ensures
            final(self).wf(),
            final(self).len == old(self).len,
            final(self).vertex_data@ == old(self).vertex_data@,
            final(self).index_data@ == old(self).index_data@,
            final(self).member_set() == old(self).member_set().insert(slot),
            old(self).members@.contains(slot) ==> final(self).members@ == old(self).members@
                && final(self).new_len == old(self).new_len,
            !old(self).members@.contains(slot) ==> final(self).new_len == old(self).new_len + 1
                && final(self).members@.len() == old(self).members@.len() + 1,
    {
        proof {
            lemma_sorted_strict_len(self.members@);
        }
        let n = self.members.len();
        let mut i: usize = 0;
        while i < n && self.members[i] < slot
            invariant
                i <= n,
                n == self.members@.len(),
                *self == *old(self),
                forall|j: int| 0 <= j < i ==> self.members@[j] < slot,
            decreases n - i,
        {
            i = i + 1;
        }
        if i < n && self.members[i] == slot {
            proof {
                assert(self.members@.contains(slot));
                assert(self.member_set() =~= self.member_set().insert(slot));
            }
        } else {
            proof {
                assert forall|k: int| 0 <= k < self.members@.len() implies self.members@[k]
                    != slot by {
                    if k >= i as int {
                        assert(self.members@[i as int] <= self.members@[k]);
                    }
                }
                assert(!self.members@.contains(slot));
            }
            let ghost old_m = self.members@;
            self.members.insert(i, slot);
            self.new_len = self.new_len + 1;
            proof {
                old_m.insert_ensures(i as int, slot);
                assert forall|a: int, b: int|
                    0 <= a < b < self.members@.len() implies self.members@[a]
                    < self.members@[b] by {
                    let m = self.members@;
                    if b < i as int {
                        assert(m[a] == old_m[a] && m[b] == old_m[b]);
                    } else if b == i as int {
                        assert(m[a] == old_m[a] && m[a] < slot);
                    } else if a < i as int {
                        assert(m[a] == old_m[a] && m[b] == old_m[b - 1]);
                        assert(old_m[i as int] <= old_m[b - 1]);
                        assert(old_m[a] < slot);
                        assert(slot < old_m[i as int] || i as int == old_m.len());
                        if i < n {
                            assert(m[a] < m[b]);
                        } else {
                            assert(b - 1 >= i as int && b - 1 < old_m.len());
                        }
                    } else if a == i as int {
                        assert(m[a] == slot && m[b] == old_m[b - 1]);
                        assert(old_m[i as int] <= old_m[b - 1]);
                        assert(slot < old_m[i as int]);
                    } else {
                        assert(m[a] == old_m[a - 1] && m[b] == old_m[b - 1]);
                    }
                }
                assert forall|x: u32| self.members@.contains(x) <==> (old_m.contains(x) || x
                    == slot) by {
                    if self.members@.contains(x) {
                        let k = choose|k: int|
                            0 <= k < self.members@.len() && self.members@[k] == x;
                        if k < i as int {
                            assert(old_m[k] == x);
                        } else if k > i as int {
                            assert(old_m[k - 1] == x);
                        }
                    }
                    if old_m.contains(x) {
                        let k = choose|k: int| 0 <= k < old_m.len() && old_m[k] == x;
                        if k < i as int {
                            assert(self.members@[k] == x);
                        } else {
                            assert(self.members@[k + 1] == x);
                        }
                    }
                    if x == slot {
                        assert(self.members@[i as int] == x);
                    }
                }
                assert(self.member_set() =~= old(self).member_set().insert(slot));
            }
        }
    }

    /// Unmarks `slot`; a slot not present is left alone (removing is
    /// idempotent), otherwise the target length shrinks by one.
    pub fn remove(&mut self, slot: u32)
        requires
            old(self).wf(),
        ensures
            final(self).wf(),
            final(self).len == old(self).len,
            final(self).vertex_data@ == old(self).vertex_data@,
            final(self).index_data@ == old(self).index_data@,
            final(self).member_set() == old(self).member_set().remove(slot),
            !old(self).members@.contains(slot) ==> final(self).members@ == old(self).members@
                && final(self).new_len == old(self).new_len,
            old(self).members@.contains(slot) ==> final(self).new_len == old(self).new_len - 1
                && final(self).members@.len() == old(self).members@.len() - 1,
    {
        let n = self.members.len();
        let mut i: usize = 0;
        while i < n && self.members[i] < slot
            invariant
                i <= n,
                n == self.members@.len(),
                *self == *old(self),
                forall|j: int| 0 <= j < i ==> self.members@[j] < slot,
            decreases n - i,
        {
            i = i + 1;
        }
        if i < n && self.members[i] == slot {
            let ghost old_m = self.members@;
            self.members.remove(i);
            self.new_len = self.new_len - 1;
            proof {
                old_m.remove_ensures(i as int);
                assert forall|a: int, b: int|
                    0 <= a < b < self.members@.len() implies self.members@[a]
                    < self.members@[b] by {
                    let m = self.members@;
                    if b < i as int {
                        assert(m[a] == old_m[a] && m[b] == old_m[b]);
                    } else if a >= i as int {
                        assert(m[a] == old_m[a + 1] && m[b] == old_m[b + 1]);
                    } else {
                        assert(m[a] == old_m[a] && m[b] == old_m[b + 1]);
                    }
                }
                assert forall|x: u32| self.members@.contains(x) <==> (old_m.contains(x) && x
                    != slot) by {
                    if self.members@.contains(x) {
                        let k = choose|k: int|
                            0 <= k < self.members@.len() && self.members@[k] == x;
                        if k < i as int {
                            assert(old_m[k] == x);
                            assert(old_m[k] < old_m[i as int]);
                        } else {
                            assert(old_m[k + 1] == x);
                            assert(old_m[i as int] < old_m[k + 1]);
                        }
                    }
                    if old_m.contains(x) && x != slot {
                        let k = choose|k: int| 0 <= k < old_m.len() && old_m[k] == x;
                        if k < i as int {
                            assert(self.members@[k] == x);
                        } else if k > i as int {
                            assert(self.members@[k - 1] == x);
                        }
                    }
                }
                assert(self.member_set() =~= old(self).member_set().remove(slot));
            }
        } else {
            proof {
                assert forall|k: int| 0 <= k < self.members@.len() implies self.members@[k]
                    != slot by {
                    if k >= i as int {
                        assert(self.members@[i as int] <= self.members@[k]);
                    }
                }
                assert(!self.members@.contains(slot));
                assert(self.member_set() =~= self.member_set().remove(slot));
            }
        }
    }

    /// Grows the buffers to the target capacity when it exceeds the
    /// materialized one — capacity only ever grows — and regenerates the
    /// full index pattern for the new capacity.
    fn resize_buffers(&mut self)
        requires
            old(self).wf(),
            old(self).new_len <= MAX_QUADS,
        ensures
            final(self).wf(),
            final(self).members@ == old(self).members@,
            final(self).new_len == old(self).new_len,
            final(self).vertex_data@ == old(self).vertex_data@,
            final(self).len == if old(self).len >= old(self).new_len {
                old(self).len
            } else {
                old(self).new_len
            },
            old(self).len >= old(self).new_len ==> final(self).index_data@ == old(
                self,
            ).index_data@,
    {
        if self.len >= self.new_len {
            return ;
        }
        self.len = self.new_len;
        self.index_data.clear();
        let n = self.len as usize;
        let mut i: usize = 0;
        while i < n
            invariant
                i <= n,
                n == self.len,
                0 <= self.len <= MAX_QUADS,
                self.index_data@.len() == i,
                forall|j: int|
                    0 <= j < i ==> index_pattern(#[trigger] self.index_data@[j], j),
                self.members@ == old(self).members@,
                self.new_len == old(self).new_len,
                self.vertex_data@ == old(self).vertex_data@,
                sorted_strict(self.members@),
                self.new_len == self.members@.len(),
            decreases n - i,
        {
            let base = (4 * i) as u16;
            let q = IndexQuad {
                i0: base,
                i1: base + 1,
                i2: base + 2,
                i3: base + 2,
                i4: base + 3,
                i5: base + 1,
            };
            self.index_data.push(q);
            i = i + 1;
        }
    }

    /// One render pass: grow the buffers to the target capacity, then
    /// recompute the quad of every member that still has both components,
    /// in ascending slot order, and issue one draw call covering
    /// `len * 6` indices. A batch with no members still returns its (no-op)
    /// draw call.
    pub fn render(
        &mut self,
        transforms: &Vec<Option<Transform>>,
        positions: &Vec<Option<Position>>,
    ) -> (d: DrawCall)
        requires
            old(self).wf(),
            old(self).new_len <= MAX_QUADS,
            transforms_bounded(transforms@),
            positions_bounded(positions@),
        ensures
            final(self).wf(),
            final(self).members@ == old(self).members@,
            final(self).new_len == old(self).new_len,
            final(self).len == if old(self).len >= old(self).new_len {
                old(self).len
            } else {
                old(self).new_len
            },
            final(self).len >= old(self).len,
            final(self).len >= final(self).new_len,
            final(self).vertex_data@ == quads_of(old(self).members@, transforms@, positions@),
            final(self).vertex_data@.len() <= final(self).len,
            d.index_count == 6 * final(self).len,
    {
        self.resize_buffers();
        self.vertex_data.clear();
        let m = self.members.len();
        let mut i: usize = 0;
        while i < m
            invariant
                i <= m,
                m == self.members@.len(),
                self.members@ == old(self).members@,
                self.new_len == old(self).new_len,
                self.len >= 0,
                self.len == if old(self).len >= old(self).new_len {
                    old(self).len
                } else {
                    old(self).new_len
                },
                self.index_data@.len() == self.len,
                forall|j: int|
                    0 <= j < self.index_data@.len() ==> index_pattern(
                        #[trigger] self.index_data@[j],
                        j,
                    ),
                sorted_strict(self.members@),
                self.new_len == self.members@.len(),
                -1 <= self.len <= MAX_QUADS,
                transforms_bounded(transforms@),
                positions_bounded(positions@),
                self.vertex_data@ == quads_of(self.members@.take(i as int), transforms@, positions@),
            decreases m - i,
        {
            let slot = self.members[i];
            let su = slot as usize;
            proof {
                assert(self.members@.take(i + 1).drop_last() =~= self.members@.take(i as int));
                assert(self.members@.take(i + 1).last() == self.members@[i as int]);
            }
            if su < transforms.len() && su < positions.len() {
                match &transforms[su] {
                    Some(t) => {
                        match &positions[su] {
                            Some(p) => {
                                let q = VertexData::new(p.0, t);
                                self.vertex_data.push(q);
                            },
                            None => {},
                        }
                    },
                    None => {},
                }
            }
            i = i + 1;
        }
        proof {
            assert(self.members@.take(m as int) =~= self.members@);
            lemma_quads_of_len(self.members@, transforms@, positions@);
        }
        DrawCall { index_count: 6 * self.len }
    }
}

/// The settled target length of a well-formed batch counts exactly its
/// current member slots.
pub proof fn lemma_new_len_counts_members(b: SpriteBatch)
    requires
        b.wf(),
    ensures
        b.new_len == b.member_set().len(),
{
    assert(b.members@.no_duplicates());
    b.members@.unique_seq_to_set();
}

} // verus!
