//! Power-of-two capacity arithmetic for amortised buffer growth.

use vstd::prelude::*;
use vstd::arithmetic::power2::{is_pow2, lemma2_to64, lemma_pow2_unfold, pow2};

verus! {

/// The largest item count whose next power of two still fits in `u32`.
pub const MAX_ITEMS: u32 = 0x8000_0000;

/// The least power of two that is at least `n`.
pub open spec fn next_pow2(n: nat) -> nat
    decreases n,
{
    if n <= 1 {
        1
    } else {
        2 * next_pow2((n + 1) / 2)
    }
}

/// The capacity a buffer has after it was asked to hold `needed` items:
/// unchanged while they fit, otherwise the next power of two.
pub open spec fn grown_capacity(capacity: nat, needed: nat) -> nat {
    if needed <= capacity {
        capacity
    } else {
        next_pow2(needed)
    }
}

/// Doubling a power of two gives a power of two.
pub proof fn lemma_pow2_double(p: int)
    requires
        is_pow2(p),
    ensures
        is_pow2(2 * p),
{
    reveal(is_pow2);
}

/// Halving a power of two other than one gives a power of two.
pub proof fn lemma_pow2_half(p: int)
    requires
        is_pow2(p),
        p != 1,
    ensures
        p % 2 == 0,
        is_pow2(p / 2),
{
    reveal(is_pow2);
}

/// Two powers of two never lie strictly between each other's half and
/// themselves: if `q` is below `p`, it is at most `p / 2`.
pub proof fn lemma_pow2_gap(p: int, q: int)
    requires
        is_pow2(p),
        is_pow2(q),
        q < p,
    ensures
        2 * q <= p,
    decreases p,
{
    reveal(is_pow2);
    if q != 1 {
        lemma_pow2_half(p);
        lemma_pow2_half(q);
        lemma_pow2_gap(p / 2, q / 2);
    }
}

/// `next_pow2(n)` is a power of two, is at least `n`, and no smaller power
/// of two is at least `n`.
pub proof fn lemma_next_pow2_is_least(n: nat)
    ensures
        is_pow2(next_pow2(n) as int),
        n <= next_pow2(n),
        n > 1 ==> next_pow2(n) < 2 * n,
        forall|q: int| is_pow2(q) && n <= q ==> next_pow2(n) <= q,
    decreases n,
{
    reveal(is_pow2);
    if n <= 1 {
        assert forall|q: int| is_pow2(q) && n <= q implies next_pow2(n) <= q by {}
    } else {
        let h = ((n + 1) / 2) as nat;
        lemma_next_pow2_is_least(h);
        lemma_pow2_double(next_pow2(h) as int);
        assert forall|q: int| is_pow2(q) && n <= q implies next_pow2(n) <= q by {
            lemma_pow2_half(q);
        }
    }
}

/// A power of two that is at least `n` and whose half is below `n` is
/// `next_pow2(n)`.
pub proof fn lemma_next_pow2_unique(n: nat, p: nat)
    requires
        is_pow2(p as int),
        n <= p,
        p == 1 || p < 2 * n,
    ensures
        p == next_pow2(n),
{
    lemma_next_pow2_is_least(n);
    let r = next_pow2(n);
    if r < p {
        lemma_pow2_gap(p as int, r as int);
    }
}

/// The least power of two that is at least `n`.
pub fn next_power_of_two(n: u32) -> (p: u32)
    requires
        n <= MAX_ITEMS,
    ensures
        p == next_pow2(n as nat),
{
    let mut p: u32 = 1;
    proof {
        reveal(is_pow2);
    }
    while p < n
        invariant
            n <= MAX_ITEMS,
            is_pow2(p as int),
            1 <= p <= MAX_ITEMS,
            p == 1 || p < 2 * n,
        decreases MAX_ITEMS - p,
    {
        proof {
            lemma_pow2_double(p as int);
            if 2 * p > MAX_ITEMS {
                lemma_pow2_max();
                lemma_pow2_gap(2 * p, MAX_ITEMS as int);
            }
        }
        p = 2 * p;
    }
    proof {
        lemma_next_pow2_unique(n as nat, p as nat);
    }
    p
}

/// The bound on item counts is itself a power of two.
pub proof fn lemma_pow2_max()
    ensures
        is_pow2(MAX_ITEMS as int),
{
    reveal(is_pow2);
    assert(is_pow2(0x8000_0000int)) by {
        reveal_with_fuel(is_pow2, 33);
    }
}


/// The capacity of a buffer that started with room for `initial` items and
/// was then synced with `counts[0]`, `counts[1]`, ... items in turn.
pub open spec fn capacity_after(initial: nat, counts: Seq<nat>) -> nat
    decreases counts.len(),
{
    if counts.len() == 0 {
        initial
    } else {
        grown_capacity(capacity_after(initial, counts.drop_last()), counts.last())
    }
}

/// How many of those syncs had to replace the buffer by a larger one.
pub open spec fn reallocations(initial: nat, counts: Seq<nat>) -> nat
    decreases counts.len(),
{
    if counts.len() == 0 {
        0
    } else if counts.last() <= capacity_after(initial, counts.drop_last()) {
        reallocations(initial, counts.drop_last())
    } else {
        reallocations(initial, counts.drop_last()) + 1
    }
}

/// One sync: the capacity never shrinks, it holds the items, it changes only
/// when they did not fit before, and a power of two stays a power of two.
pub proof fn lemma_grown_capacity(capacity: nat, needed: nat)
    ensures
        grown_capacity(capacity, needed) >= needed,
        grown_capacity(capacity, needed) >= capacity,
        grown_capacity(capacity, needed) != capacity <==> needed > capacity,
        is_pow2(capacity as int) ==> is_pow2(grown_capacity(capacity, needed) as int),
        is_pow2(capacity as int) && needed > capacity ==> grown_capacity(capacity, needed) >= 2
            * capacity,
{
    lemma_next_pow2_is_least(needed);
    if needed > capacity && is_pow2(capacity as int) {
        lemma_pow2_gap(next_pow2(needed) as int, capacity as int);
    }
}

/// Capacity law: after every sync of any run, the capacity holds the items
/// of that sync and is no smaller than before; the buffer is replaced exactly
/// when the items exceed the previous capacity; and a buffer that started
/// with a power-of-two capacity keeps one.
pub proof fn lemma_capacity_law(initial: nat, counts: Seq<nat>)
    requires
        counts.len() > 0,
    ensures
        capacity_after(initial, counts) >= counts.last(),
        capacity_after(initial, counts) >= capacity_after(initial, counts.drop_last()),
        capacity_after(initial, counts) >= initial,
        capacity_after(initial, counts) != capacity_after(initial, counts.drop_last())
            <==> counts.last() > capacity_after(initial, counts.drop_last()),
        reallocations(initial, counts) != reallocations(initial, counts.drop_last())
            <==> counts.last() > capacity_after(initial, counts.drop_last()),
        is_pow2(initial as int) ==> is_pow2(capacity_after(initial, counts) as int),
    decreases counts.len(),
{
    let before = counts.drop_last();
    lemma_grown_capacity(capacity_after(initial, before), counts.last());
    if before.len() > 0 {
        lemma_capacity_law(initial, before);
    }
}

/// Amortised growth: every replacement at least doubles a power-of-two
/// capacity, so a run with `k` replacements ends with at least `2^k` times
/// the initial capacity.
pub proof fn lemma_reallocations_double(initial: nat, counts: Seq<nat>)
    requires
        is_pow2(initial as int),
    ensures
        initial * pow2(reallocations(initial, counts)) <= capacity_after(initial, counts),
    decreases counts.len(),
{
    if counts.len() == 0 {
        lemma2_to64();
        assert(initial * pow2(0) == initial) by (nonlinear_arith)
            requires
                pow2(0) == 1,
        ;
    } else {
        let before = counts.drop_last();
        lemma_reallocations_double(initial, before);
        let cap = capacity_after(initial, before);
        let k = reallocations(initial, before);
        lemma_grown_capacity(cap, counts.last());
        if before.len() > 0 {
            lemma_capacity_law(initial, before);
        }
        if counts.last() > cap {
            lemma_pow2_unfold(k + 1);
            assert(initial * pow2(k + 1) == 2 * (initial * pow2(k))) by (nonlinear_arith)
                requires
                    pow2(k + 1) == 2 * pow2(k),
            ;
        }
    }
}

} // verus!
