//! The outline of the animal: how the hit points of the joints of a spine
//! are ordered into one closed polygon.

use vstd::prelude::*;

verus! {

/// The two spine points whose difference is the forward tangent of joint
/// `i` in a spine of `len` joints: the joint and the one behind it, and for
/// the tail the one before it and the tail, so that every tangent faces the
/// same way.
pub open spec fn tangent_pair_of(i: int, len: int) -> (int, int) {
    if i == len - 1 {
        (i - 1, i)
    } else {
        (i, i + 1)
    }
}

/// The indices `(a, b)` such that the forward tangent of joint `i` is the
/// direction from point `b` to point `a`.
pub fn tangent_pair(i: usize, len: usize) -> (pair: (usize, usize))
    requires
        len >= 2,
        i < len,
    ensures
        (pair.0 as int, pair.1 as int) == tangent_pair_of(i as int, len as int),
        pair.0 < len,
        pair.1 < len,
        pair.1 == pair.0 + 1,
{
    if i == len - 1 {
        (i - 1, i)
    } else {
        (i, i + 1)
    }
}

/// The hit points of one side of the spine, head to tail: of every joint
/// that has normal points, the first one on the left side and the second one
/// on the right side.
pub open spec fn side_of<P>(normals: Seq<Option<(P, P)>>, left: bool) -> Seq<P>
    decreases normals.len(),
{
    if normals.len() == 0 {
        Seq::empty()
    } else {
        let rest = side_of(normals.drop_last(), left);
        match normals.last() {
            Some(pair) => rest.push(
                if left {
                    pair.0
                } else {
                    pair.1
                },
            ),
            None => rest,
        }
    }
}

/// The skin polygon, a closed loop: the head cap, the left points from
/// head to tail, the tail cap, then the right points from tail to head. The
/// loop closes from the last right point back to the head cap.
pub open spec fn skin_of<P>(head_cap: P, normals: Seq<Option<(P, P)>>, tail_cap: P) -> Seq<P> {
    seq![head_cap] + side_of(normals, true) + seq![tail_cap] + side_of(normals, false).reverse()
}

/// How many joints of `normals` have normal points.
pub open spec fn present<P>(normals: Seq<Option<(P, P)>>) -> nat
    decreases normals.len(),
{
    if normals.len() == 0 {
        0
    } else {
        present(normals.drop_last()) + if normals.last() is Some {
            1nat
        } else {
            0nat
        }
    }
}

/// A side has one point for every joint that has normal points.
pub proof fn lemma_side_len<P>(normals: Seq<Option<(P, P)>>, left: bool)
    ensures
        side_of(normals, left).len() == present(normals),
        present(normals) <= normals.len(),
        (forall|i: int| 0 <= i < normals.len() ==> normals[i] is Some) ==> present(normals)
            == normals.len(),
    decreases normals.len(),
{
    if normals.len() > 0 {
        lemma_side_len(normals.drop_last(), left);
    }
}

/// Where every joint has normal points, the sides hold them in the order of
/// the joints.
pub proof fn lemma_side_index<P>(normals: Seq<Option<(P, P)>>, left: bool, i: int)
    requires
        forall|k: int| 0 <= k < normals.len() ==> normals[k] is Some,
        0 <= i < normals.len(),
    ensures
        side_of(normals, left).len() == normals.len(),
        left ==> side_of(normals, left)[i] == normals[i]->Some_0.0,
        !left ==> side_of(normals, left)[i] == normals[i]->Some_0.1,
    decreases normals.len(),
{
    lemma_side_len(normals, left);
    lemma_side_len(normals.drop_last(), left);
    if i < normals.len() - 1 {
        lemma_side_index(normals.drop_last(), left, i);
    }
}

/// Skin loop closure: the polygon has two points for every joint that has
/// normal points, and the two cap points; it starts at the head cap, and the
/// tail cap stands between the left and the right points.
pub proof fn lemma_skin_closed<P>(head_cap: P, normals: Seq<Option<(P, P)>>, tail_cap: P)
    ensures
        skin_of(head_cap, normals, tail_cap).len() == 2 * present(normals) + 2,
        skin_of(head_cap, normals, tail_cap).first() == head_cap,
        skin_of(head_cap, normals, tail_cap)[present(normals) as int + 1] == tail_cap,
{
    lemma_side_len(normals, true);
    lemma_side_len(normals, false);
}

/// Skin order: for a spine of `n` joints that all have normal points, the
/// polygon has `2 * n + 2` points; the left point of joint `i` stands at
/// `1 + i` and its right point at `2 * n + 1 - i`, so that the polygon runs
/// down the left side and back up the right side.
pub proof fn lemma_skin_pairs<P>(
    head_cap: P,
    normals: Seq<Option<(P, P)>>,
    tail_cap: P,
    i: int,
)
    requires
        forall|k: int| 0 <= k < normals.len() ==> normals[k] is Some,
        0 <= i < normals.len(),
    ensures
        skin_of(head_cap, normals, tail_cap).len() == 2 * normals.len() + 2,
        skin_of(head_cap, normals, tail_cap)[1 + i] == normals[i]->Some_0.0,
        skin_of(head_cap, normals, tail_cap)[2 * normals.len() + 1 - i] == normals[i]->Some_0.1,
{
    lemma_side_len(normals, true);
    lemma_side_len(normals, false);
    lemma_side_index(normals, true, i);
    lemma_side_index(normals, false, i);
}

/// Orders the hit points of a spine into the skin polygon. `normals` holds
/// the two normal points of every joint from head to tail, absent where the
/// joint has none; `head_cap` and `tail_cap` close the tip and the tail.
pub fn assemble_skin<P: Copy>(
    head_cap: P,
    normals: &Vec<Option<(P, P)>>,
    tail_cap: P,
) -> (skin: Vec<P>)
    ensures
        skin@ == skin_of(head_cap, normals@, tail_cap),
{
    let mut skin_left: Vec<P> = Vec::new();
    let mut skin_rght: Vec<P> = Vec::new();
    skin_left.push(head_cap);
    let n = normals.len();
    let mut i: usize = 0;
    while i < n
        invariant
            0 <= i <= n,
            n == normals@.len(),
            skin_left@ == seq![head_cap] + side_of(normals@.take(i as int), true),
            skin_rght@ == side_of(normals@.take(i as int), false),
        decreases n - i,
    {
        proof {
            assert(normals@.take(i + 1).drop_last() =~= normals@.take(i as int));
        }
        match normals[i] {
            Some((n1, n2)) => {
                skin_left.push(n1);
                skin_rght.push(n2);
            },
            None => {},
        }
        i += 1;
    }
    proof {
        assert(normals@.take(n as int) =~= normals@);
    }
    skin_left.push(tail_cap);
    let m = skin_rght.len();
    let mut k: usize = m;
    while k > 0
        invariant
            0 <= k <= m,
            m == skin_rght@.len(),
            skin_rght@ == side_of(normals@, false),
            skin_left@ =~= seq![head_cap] + side_of(normals@, true) + seq![tail_cap]
                + skin_rght@.reverse().take(m - k),
        decreases k,
    {
        k -= 1;
        skin_left.push(skin_rght[k]);
    }
    skin_left
}

/// Whether `normals` holds, for every joint of `spine`, what `normal_points`
/// returns for the joint and the two joints that its tangent is taken from.
pub open spec fn probed<J, P, N: Fn(&J, &J, &J) -> Option<(P, P)>>(
    spine: Seq<J>,
    normal_points: N,
    normals: Seq<Option<(P, P)>>,
) -> bool {
    &&& normals.len() == spine.len()
    &&& forall|i: int|
        0 <= i < spine.len() ==> normal_points.ensures(
            (
                &spine[i],
                &spine[tangent_pair_of(i, spine.len() as int).0],
                &spine[tangent_pair_of(i, spine.len() as int).1],
            ),
            #[trigger] normals[i],
        )
}

/// Whether `skin` is the skin polygon of `spine`: empty for an empty spine,
/// and otherwise made of the normal points of every joint, of the cap that
/// `cap` returns for the head along its tangent (`true`), and of the cap
/// that it returns for the tail against its tangent (`false`).
pub open spec fn is_skin<
    J,
    P,
    N: Fn(&J, &J, &J) -> Option<(P, P)>,
    C: Fn(&J, &J, &J, bool) -> P,
>(spine: Seq<J>, normal_points: N, cap: C, skin: Seq<P>) -> bool {
    if spine.len() == 0 {
        skin.len() == 0
    } else {
        let last = spine.len() - 1;
        exists|head_cap: P, normals: Seq<Option<(P, P)>>, tail_cap: P|
            {
                &&& cap.ensures((&spine[0], &spine[0], &spine[1], true), head_cap)
                &&& probed(spine, normal_points, normals)
                &&& cap.ensures((&spine[last], &spine[last - 1], &spine[last], false), tail_cap)
                &&& skin == #[trigger] skin_of(head_cap, normals, tail_cap)
            }
    }
}

/// The skin of a spine of two or more joints starts at the cap of its head.
/// It has at most two points for every joint and the two caps, and exactly
/// that many where `normal_points` never returns none.
pub proof fn lemma_skin_of_spine<
    J,
    P,
    N: Fn(&J, &J, &J) -> Option<(P, P)>,
    C: Fn(&J, &J, &J, bool) -> P,
>(spine: Seq<J>, normal_points: N, cap: C, skin: Seq<P>)
    requires
        spine.len() > 0,
        is_skin(spine, normal_points, cap, skin),
    ensures
        2 <= skin.len() <= 2 * spine.len() + 2,
        cap.ensures((&spine[0], &spine[0], &spine[1], true), skin.first()),
        (forall|j: J, a: J, b: J, r: Option<(P, P)>| #[trigger]
            normal_points.ensures((&j, &a, &b), r) ==> r is Some) ==> skin.len() == 2
            * spine.len() + 2,
{
    let last = spine.len() - 1;
    let (head_cap, normals, tail_cap) = choose|
        head_cap: P,
        normals: Seq<Option<(P, P)>>,
        tail_cap: P,
    |
        {
            &&& cap.ensures((&spine[0], &spine[0], &spine[1], true), head_cap)
            &&& probed(spine, normal_points, normals)
            &&& cap.ensures((&spine[last], &spine[last - 1], &spine[last], false), tail_cap)
            &&& skin == #[trigger] skin_of(head_cap, normals, tail_cap)
        };
    lemma_skin_closed(head_cap, normals, tail_cap);
    lemma_side_len(normals, true);
    if forall|j: J, a: J, b: J, r: Option<(P, P)>| #[trigger]
        normal_points.ensures((&j, &a, &b), r) ==> r is Some {
        assert forall|i: int| 0 <= i < normals.len() implies normals[i] is Some by {
        }
    }
}

/// Computes the skin polygon of `spine`. The tangent of a joint is the
/// direction from the second to the first of the two joints that are handed
/// to `normal_points` and `cap` after the joint itself.
pub fn compute_skin<
    J,
    P: Copy,
    N: Fn(&J, &J, &J) -> Option<(P, P)>,
    C: Fn(&J, &J, &J, bool) -> P,
>(spine: &Vec<J>, normal_points: N, cap: C) -> (skin: Vec<P>)
    requires
        spine@.len() != 1,
        forall|j: J, a: J, b: J| normal_points.requires((&j, &a, &b)),
        forall|j: J, a: J, b: J, forward: bool| cap.requires((&j, &a, &b, forward)),
    ensures
        is_skin(spine@, normal_points, cap, skin@),
{
    let n = spine.len();
    if n == 0 {
        return Vec::new();
    }
    let head_cap = cap(&spine[0], &spine[0], &spine[1], true);
    let mut normals: Vec<Option<(P, P)>> = Vec::new();
    let mut i: usize = 0;
    while i < n
        invariant
            0 <= i <= n,
            n == spine@.len(),
            n >= 2,
            normals@.len() == i,
            forall|k: int|
                0 <= k < i ==> normal_points.ensures(
                    (
                        &spine@[k],
                        &spine@[tangent_pair_of(k, n as int).0],
                        &spine@[tangent_pair_of(k, n as int).1],
                    ),
                    #[trigger] normals@[k],
                ),
            forall|j: J, a: J, b: J| normal_points.requires((&j, &a, &b)),
        decreases n - i,
    {
        let (a, b) = tangent_pair(i, n);
        normals.push(normal_points(&spine[i], &spine[a], &spine[b]));
        i += 1;
    }
    let tail_cap = cap(&spine[n - 1], &spine[n - 2], &spine[n - 1], false);
    let skin = assemble_skin(head_cap, &normals, tail_cap);
    skin
}

} // verus!
