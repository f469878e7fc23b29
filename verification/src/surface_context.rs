//! The presentable surface: which of the offered pixel formats is used.

use vstd::prelude::*;

verus! {

/// Whether `index` is the position of the format that the surface is
/// configured with, among the formats that it offers: the first one that is
/// not sRGB, and the first one of all where every format is sRGB. `srgb[i]`
/// says whether the format at `i` is sRGB.
pub open spec fn is_surface_format(srgb: Seq<bool>, index: int) -> bool {
    &&& 0 <= index < srgb.len()
    &&& forall|j: int| 0 <= j < index ==> srgb[j]
    &&& srgb[index] ==> index == 0 && forall|j: int| 0 <= j < srgb.len() ==> srgb[j]
}

/// Only one position is that of the surface format.
pub proof fn lemma_surface_format_unique(srgb: Seq<bool>, a: int, b: int)
    requires
        is_surface_format(srgb, a),
        is_surface_format(srgb, b),
    ensures
        a == b,
{
}

/// Picks the pixel format of the surface among those that it offers, so that
/// colours look the same on every backend: the first format that is not
/// sRGB, or the first format where there is none.
pub fn pick_surface_format(srgb: &Vec<bool>) -> (index: usize)
    requires
        srgb@.len() > 0,
    ensures
        is_surface_format(srgb@, index as int),
{
    let n = srgb.len();
    let mut i: usize = 0;
    while i < n
        invariant
            0 <= i <= n,
            n == srgb@.len(),
            forall|j: int| 0 <= j < i ==> srgb@[j],
        decreases n - i,
    {
        if !srgb[i] {
            return i;
        }
        i += 1;
    }
    0
}

} // verus!
