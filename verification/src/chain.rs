//! Fixed-iteration relaxation of a chain of points: every point is pulled
//! to a fixed distance from the one before it, head first.

use vstd::prelude::*;

verus! {

/// Whether `new` is where `place` puts a point `cur` that follows `prev`:
/// the point that `place` returns, or `cur` itself where `place` returns
/// none because the direction from `prev` to `cur` is undefined.
pub open spec fn placed<P, F: Fn(&P, &P) -> Option<P>>(place: F, prev: P, cur: P, new: P) -> bool {
    ||| place.ensures((&prev, &cur), Some(new))
    ||| (place.ensures((&prev, &cur), None::<P>) && new == cur)
}

/// Whether `after` is one sweep over `before`: the first point stays, and
/// every other point is placed behind its already placed predecessor.
pub open spec fn swept<P, F: Fn(&P, &P) -> Option<P>>(
    place: F,
    before: Seq<P>,
    after: Seq<P>,
) -> bool {
    &&& after.len() == before.len()
    &&& before.len() > 0 ==> after[0] == before[0]
    &&& forall|i: int|
        1 <= i < before.len() ==> placed(place, after[i - 1], before[i], #[trigger] after[i])
}

/// Whether `after` is reached from `before` by `iterations` sweeps.
pub open spec fn relaxed<P, F: Fn(&P, &P) -> Option<P>>(
    place: F,
    before: Seq<P>,
    after: Seq<P>,
    iterations: nat,
) -> bool
    decreases iterations,
{
    if iterations == 0 {
        after == before
    } else {
        exists|mid: Seq<P>|
            relaxed(place, before, mid, (iterations - 1) as nat) && #[trigger] swept(
                place,
                mid,
                after,
            )
    }
}

/// Relaxation keeps the number of points and never moves the first one,
/// which is driven from outside.
pub proof fn lemma_relaxed_keeps_head<P, F: Fn(&P, &P) -> Option<P>>(
    place: F,
    before: Seq<P>,
    after: Seq<P>,
    iterations: nat,
)
    requires
        relaxed(place, before, after, iterations),
    ensures
        after.len() == before.len(),
        before.len() > 0 ==> after[0] == before[0],
    decreases iterations,
{
    if iterations > 0 {
        let mid = choose|mid: Seq<P>|
            relaxed(place, before, mid, (iterations - 1) as nat) && #[trigger] swept(
                place,
                mid,
                after,
            );
        lemma_relaxed_keeps_head(place, before, mid, (iterations - 1) as nat);
    }
}

/// Relaxes the chain `points` by `iterations` sweeps. In a sweep every point
/// but the first is replaced by what `place` returns for its predecessor and
/// itself, and is left where it is where `place` returns none.
pub fn solve_chain<P, F: Fn(&P, &P) -> Option<P>>(
    points: &mut Vec<P>,
    iterations: usize,
    place: F,
)
    requires
        forall|prev: P, cur: P| place.requires((&prev, &cur)),
    ensures
        relaxed(place, old(points)@, final(points)@, iterations as nat),
        final(points)@.len() == old(points)@.len(),
        old(points)@.len() > 0 ==> final(points)@[0] == old(points)@[0],
{
    let n = points.len();
    let mut round: usize = 0;
    while round < iterations
        invariant
            0 <= round <= iterations,
            points@.len() == n,
            relaxed(place, old(points)@, points@, round as nat),
            forall|prev: P, cur: P| place.requires((&prev, &cur)),
        decreases iterations - round,
    {
        let ghost start = points@;
        let mut i: usize = 1;
        while i < n
            invariant
                1 <= i,
                points@.len() == n,
                start.len() == n,
                n > 0 ==> points@[0] == start[0],
                forall|j: int|
                    1 <= j < i && j < n ==> placed(
                        place,
                        points@[j - 1],
                        start[j],
                        #[trigger] points@[j],
                    ),
                forall|j: int| i <= j < n ==> points@[j] == start[j],
                forall|prev: P, cur: P| place.requires((&prev, &cur)),
            decreases n - i,
        {
            let moved = place(&points[i - 1], &points[i]);
            match moved {
                Some(p) => {
                    points.set(i, p);
                },
                None => {},
            }
            i += 1;
        }
        proof {
            assert(swept(place, start, points@));
        }
        round += 1;
    }
    proof {
        lemma_relaxed_keeps_head(place, old(points)@, points@, iterations as nat);
    }
}

} // verus!
