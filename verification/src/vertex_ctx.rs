//! A growable vertex buffer: a CPU-side mirror of what was last uploaded,
//! and the GPU buffer that holds it.

use vstd::prelude::*;
use crate::capacity::{grown_capacity, next_pow2, next_power_of_two, MAX_ITEMS};
use crate::capacity::{capacity_after, lemma_grown_capacity, lemma_next_pow2_is_least};
use vstd::arithmetic::power2::is_pow2;

verus! {

/// Vertices of type `V` mirrored on the CPU, and a GPU buffer `B` with room
/// for `capacity` of them.
pub struct VertexCtx<V, B> {
    /// CPU-side mirror of what was last uploaded, in insertion order.
    pub verts: Vec<V>,
    /// How many vertices fit in `buf`.
    pub capacity: u32,
    /// How many vertices are in use this frame.
    pub count: u32,
    /// The GPU buffer.
    pub buf: B,
}

impl<V, B> VertexCtx<V, B> {
    /// The mirror is what the count speaks of, and it fits in the buffer.
    pub open spec fn wf(&self) -> bool {
        &&& self.count == self.verts@.len()
        &&& self.count <= self.capacity
    }

    /// The buffer that serves `needed` vertices after `old_buf` with room for
    /// `capacity` served the previous frame: the same one while they fit,
    /// otherwise one that `alloc` made for the grown capacity.
    pub open spec fn serves<A: FnOnce(u32) -> B>(
        old_buf: B,
        capacity: u32,
        needed: nat,
        alloc: A,
        buf: B,
    ) -> bool {
        if needed <= capacity {
            buf == old_buf
        } else {
            alloc.ensures((next_pow2(needed) as u32,), buf)
        }
    }

    /// Whether `self` is a context that a sync of `self.count` items can
    /// have left of `before`: the mirror is what the count speaks of, the
    /// capacity is the grown one, and the buffer is that of `before` where
    /// the items fitted.
    pub open spec fn follows(&self, before: Self) -> bool {
        &&& self.wf()
        &&& self.capacity == grown_capacity(before.capacity as nat, self.count as nat)
        &&& self.count <= before.capacity ==> self.buf == before.buf
    }

    /// Builds an empty context whose buffer `alloc` sizes for `initial_cap`
    /// vertices.
    pub fn new<A: FnOnce(u32) -> B>(initial_cap: u32, alloc: A) -> (ctx: Self)
        requires
            alloc.requires((initial_cap,)),
        ensures
            ctx.wf(),
            ctx.verts@.len() == 0,
            ctx.capacity == initial_cap,
            ctx.count == 0,
            alloc.ensures((initial_cap,), ctx.buf),
    {
        let buf = alloc(initial_cap);
        VertexCtx { verts: Vec::new(), capacity: initial_cap, count: 0, buf }
    }

    /// Grows the GPU buffer if the mirror no longer fits, and brings the
    /// count up to date.
    fn ensure_capacity<A: FnOnce(u32) -> B>(&mut self, alloc: A)
        requires
            old(self).verts@.len() <= MAX_ITEMS,
            old(self).verts@.len() > old(self).capacity ==> alloc.requires(
                (next_pow2(old(self).verts@.len()) as u32,),
            ),
        ensures
            final(self).wf(),
            final(self).follows(*old(self)),
            final(self).verts == old(self).verts,
            final(self).capacity == grown_capacity(
                old(self).capacity as nat,
                old(self).verts@.len(),
            ),
            Self::serves(
                old(self).buf,
                old(self).capacity,
                old(self).verts@.len(),
                alloc,
                final(self).buf,
            ),
    {
        let needed: u32 = self.verts.len() as u32;
        proof {
            lemma_next_pow2_is_least(needed as nat);
        }
        if needed > self.capacity {
            self.capacity = next_power_of_two(needed);
            self.buf = alloc(self.capacity);
        }
        self.count = needed;
    }

    /// Replaces the mirror by `verts`, grows the GPU buffer to the next power
    /// of two if they no longer fit, and hands the buffer and the whole
    /// mirror to `upload`.
    pub fn sync<A: FnOnce(u32) -> B, U: FnOnce(&B, &Vec<V>) -> R, R>(
        &mut self,
        verts: Vec<V>,
        alloc: A,
        upload: U,
    ) -> (receipt: R)
        requires
            verts@.len() <= MAX_ITEMS,
            verts@.len() > old(self).capacity ==> alloc.requires(
                (next_pow2(verts@.len()) as u32,),
            ),
            forall|b: B|
                Self::serves(old(self).buf, old(self).capacity, verts@.len(), alloc, b)
                    ==> upload.requires((&b, &verts)),
        ensures
            final(self).wf(),
            final(self).follows(*old(self)),
            final(self).verts == verts,
            final(self).count == verts@.len(),
            final(self).capacity == grown_capacity(old(self).capacity as nat, verts@.len()),
            Self::serves(
                old(self).buf,
                old(self).capacity,
                verts@.len(),
                alloc,
                final(self).buf,
            ),
            upload.ensures((&final(self).buf, &final(self).verts), receipt),
    {
        self.verts = verts;
        self.ensure_capacity(alloc);
        upload(&self.buf, &self.verts)
    }
}

/// The item counts of the syncs that led from `run[0]` to `run[k]`.
pub open spec fn counts_of<V, B>(run: Seq<VertexCtx<V, B>>, k: int) -> Seq<nat> {
    Seq::new(k as nat, |j: int| run[j + 1].count as nat)
}

/// Capacity law over any run of syncs: where every context of `run` follows
/// the one before it, then after each sync the count is the number of items
/// in the mirror and fits the capacity; the capacity is that of the whole
/// run of counts and never shrinks; while the items fit, the buffer and the
/// capacity are those from before; and a capacity that started as a power of
/// two is one.
pub proof fn lemma_sync_run<V, B>(run: Seq<VertexCtx<V, B>>, k: int)
    requires
        0 < k < run.len(),
        forall|j: int| 0 < j < run.len() ==> (#[trigger] run[j]).follows(run[j - 1]),
    ensures
        run[k].count == run[k].verts@.len(),
        run[k].count <= run[k].capacity,
        run[k].capacity == capacity_after(run[0].capacity as nat, counts_of(run, k)),
        run[k].capacity >= run[k - 1].capacity,
        run[k].capacity >= run[0].capacity,
        run[k].count <= run[k - 1].capacity ==> run[k].buf == run[k - 1].buf
            && run[k].capacity == run[k - 1].capacity,
        run[k].capacity != run[k - 1].capacity <==> run[k].count > run[k - 1].capacity,
        is_pow2(run[0].capacity as int) ==> is_pow2(run[k].capacity as int),
    decreases k,
{
    assert(run[k].follows(run[k - 1]));
    lemma_grown_capacity(run[k - 1].capacity as nat, run[k].count as nat);
    assert(counts_of(run, k).drop_last() =~= counts_of(run, k - 1));
    if k > 1 {
        lemma_sync_run(run, k - 1);
    }
}

} // verus!
