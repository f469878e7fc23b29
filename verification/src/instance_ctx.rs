//! A growable instance buffer: the per-instance data of one draw call,
//! mirrored on the CPU, and the GPU buffer that holds it.

use vstd::prelude::*;
use crate::capacity::{grown_capacity, next_pow2, next_power_of_two, MAX_ITEMS};
use crate::capacity::{capacity_after, lemma_grown_capacity, lemma_next_pow2_is_least};
use vstd::arithmetic::power2::is_pow2;

verus! {

/// Instances of type `I` mirrored on the CPU, and a GPU buffer `B` with room
/// for `capacity` of them.
pub struct InstanceCtx<I, B> {
    /// CPU-side mirror of what was last uploaded, in insertion order.
    pub instances: Vec<I>,
    /// How many instances fit in `buff`.
    pub capacity: u32,
    /// How many instances are drawn this frame.
    pub count: u32,
    /// The GPU buffer.
    pub buff: B,
}

impl<I, B> InstanceCtx<I, B> {
    /// The mirror is what the count speaks of, and it fits in the buffer.
    pub open spec fn wf(&self) -> bool {
        &&& self.count == self.instances@.len()
        &&& self.count <= self.capacity
    }

    /// The buffer that serves `needed` instances after `old_buff` with room
    /// for `capacity` served the previous frame: the same one while they fit,
    /// otherwise one that `alloc` made for the grown capacity.
    pub open spec fn serves<A: FnOnce(u32) -> B>(
        old_buff: B,
        capacity: u32,
        needed: nat,
        alloc: A,
        buff: B,
    ) -> bool {
        if needed <= capacity {
            buff == old_buff
        } else {
            alloc.ensures((next_pow2(needed) as u32,), buff)
        }
    }

    /// Whether `self` is a context that a sync of `self.count` items can
    /// have left of `before`: the mirror is what the count speaks of, the
    /// capacity is the grown one, and the buffer is that of `before` where
    /// the items fitted.
    pub open spec fn follows(&self, before: Self) -> bool {
        &&& self.wf()
        &&& self.capacity == grown_capacity(before.capacity as nat, self.count as nat)
        &&& self.count <= before.capacity ==> self.buff == before.buff
    }

    /// Builds an empty context whose buffer `alloc` sizes for `initial_cap`
    /// instances.
    pub fn new<A: FnOnce(u32) -> B>(initial_cap: u32, alloc: A) -> (ctx: Self)
        requires
            alloc.requires((initial_cap,)),
        ensures
            ctx.wf(),
            ctx.instances@.len() == 0,
            ctx.capacity == initial_cap,
            ctx.count == 0,
            alloc.ensures((initial_cap,), ctx.buff),
    {
        let buff = alloc(initial_cap);
        InstanceCtx { instances: Vec::new(), capacity: initial_cap, count: 0, buff }
    }

    /// Grows the GPU buffer if the mirror no longer fits, and brings the
    /// count up to date.
    pub fn ensure_capacity<A: FnOnce(u32) -> B>(&mut self, alloc: A)
        requires
            old(self).instances@.len() <= MAX_ITEMS,
            old(self).instances@.len() > old(self).capacity ==> alloc.requires(
                (next_pow2(old(self).instances@.len()) as u32,),
            ),
        ensures
            final(self).wf(),
            final(self).follows(*old(self)),
            final(self).instances == old(self).instances,
            final(self).capacity == grown_capacity(
                old(self).capacity as nat,
                old(self).instances@.len(),
            ),
            Self::serves(
                old(self).buff,
                old(self).capacity,
                old(self).instances@.len(),
                alloc,
                final(self).buff,
            ),
    {
        let needed: u32 = self.instances.len() as u32;
        proof {
            lemma_next_pow2_is_least(needed as nat);
        }
        if needed <= self.capacity {
            self.count = needed;
            return ;
        }
        self.capacity = next_power_of_two(needed);
        self.buff = alloc(self.capacity);
        self.count = needed;
    }

    /// Replaces the mirror by `instances`, grows the GPU buffer to the next
    /// power of two if they no longer fit, and hands the buffer and the whole
    /// mirror to `upload`.
    pub fn sync_instances<A: FnOnce(u32) -> B, U: FnOnce(&B, &Vec<I>) -> R, R>(
        &mut self,
        instances: Vec<I>,
        alloc: A,
        upload: U,
    ) -> (receipt: R)
        requires
            instances@.len() <= MAX_ITEMS,
            instances@.len() > old(self).capacity ==> alloc.requires(
                (next_pow2(instances@.len()) as u32,),
            ),
            forall|b: B|
                Self::serves(old(self).buff, old(self).capacity, instances@.len(), alloc, b)
                    ==> upload.requires((&b, &instances)),
        ensures
            final(self).wf(),
            final(self).follows(*old(self)),
            final(self).instances == instances,
            final(self).count == instances@.len(),
            final(self).capacity == grown_capacity(
                old(self).capacity as nat,
                instances@.len(),
            ),
            Self::serves(
                old(self).buff,
                old(self).capacity,
                instances@.len(),
                alloc,
                final(self).buff,
            ),
            upload.ensures((&final(self).buff, &final(self).instances), receipt),
    {
        self.instances = instances;
        self.ensure_capacity(alloc);
        upload(&self.buff, &self.instances)
    }
}

/// The item counts of the syncs that led from `run[0]` to `run[k]`.
pub open spec fn counts_of<I, B>(run: Seq<InstanceCtx<I, B>>, k: int) -> Seq<nat> {
    Seq::new(k as nat, |j: int| run[j + 1].count as nat)
}

/// Capacity law over any run of syncs: where every context of `run` follows
/// the one before it, then after each sync the count is the number of items
/// in the mirror and fits the capacity; the capacity is that of the whole
/// run of counts and never shrinks; while the items fit, the buffer and the
/// capacity are those from before; and a capacity that started as a power of
/// two is one.
pub proof fn lemma_sync_run<I, B>(run: Seq<InstanceCtx<I, B>>, k: int)
    requires
        0 < k < run.len(),
        forall|j: int| 0 < j < run.len() ==> (#[trigger] run[j]).follows(run[j - 1]),
    ensures
        run[k].count == run[k].instances@.len(),
        run[k].count <= run[k].capacity,
        run[k].capacity == capacity_after(run[0].capacity as nat, counts_of(run, k)),
        run[k].capacity >= run[k - 1].capacity,
        run[k].capacity >= run[0].capacity,
        run[k].count <= run[k - 1].capacity ==> run[k].buff == run[k - 1].buff
            && run[k].capacity == run[k - 1].capacity,
        run[k].capacity != run[k - 1].capacity <==> run[k].count > run[k - 1].capacity,
        is_pow2(run[0].capacity as int) ==> is_pow2(run[k].capacity as int),
    decreases k,
{
    assert(run[k].follows(run[k - 1]));
    lemma_grown_capacity(run[k - 1].capacity as nat, run[k].count as nat);
    assert(counts_of(run, k).drop_last() =~= counts_of(run, k - 1));
    if k > 1 {
        lemma_sync_run(run, k - 1);
    }
}

} // verus!
