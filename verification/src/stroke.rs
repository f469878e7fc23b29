//! Extrusion of a polyline into a triangle strip of constant width: which
//! neighbours give the tangent at each point, and how the vertices are laid
//! out.

use vstd::prelude::*;

verus! {

/// The two points whose difference is the tangent at point `i` of a
/// polyline of `len` points, as `(from, to)`: the first two points at the
/// start, the last two at the end, and the two neighbours in between.
pub open spec fn tangent_span_of(i: int, len: int) -> (int, int) {
    if i == 0 {
        (0, 1)
    } else if i == len - 1 {
        (i - 1, i)
    } else {
        (i - 1, i + 1)
    }
}

/// The indices `(from, to)` such that the tangent at point `i` is the
/// direction from point `from` to point `to`.
pub fn tangent_span(i: usize, len: usize) -> (span: (usize, usize))
    requires
        len >= 2,
        i < len,
    ensures
        (span.0 as int, span.1 as int) == tangent_span_of(i as int, len as int),
        span.0 < span.1 < len,
{
    if i == 0 {
        (0, 1)
    } else if i == len - 1 {
        (i - 1, i)
    } else {
        (i - 1, i + 1)
    }
}

/// Whether `strip` is the extrusion of `points` by `extrude`: two vertices
/// per point, the left one before the right one, each pair being what
/// `extrude` makes of the position of the point, the point itself and the
/// two points that span its tangent.
pub open spec fn is_stroke<P, V, F: Fn(usize, &P, &P, &P) -> (V, V)>(
    extrude: F,
    points: Seq<P>,
    strip: Seq<V>,
) -> bool {
    &&& strip.len() == 2 * points.len()
    &&& forall|i: int|
        0 <= i < points.len() ==> extrude.ensures(
            (
                i as usize,
                &points[i],
                &points[tangent_span_of(i, points.len() as int).0],
                &points[tangent_span_of(i, points.len() as int).1],
            ),
            (#[trigger] strip[2 * i], strip[2 * i + 1]),
        )
}

/// Extrudes the polyline `points` into a triangle strip. For every point,
/// `extrude` is given its position, the point and the two points that span
/// its tangent, and returns the left and the right vertex.
pub fn stroke_polyline<P, V, F: Fn(usize, &P, &P, &P) -> (V, V)>(
    points: &Vec<P>,
    extrude: F,
) -> (strip: Vec<V>)
    requires
        points@.len() >= 2,
        forall|i: usize, p: P, from: P, to: P| extrude.requires((i, &p, &from, &to)),
    ensures
        is_stroke(extrude, points@, strip@),
{
    let n = points.len();
    let mut out: Vec<V> = Vec::new();
    let mut i: usize = 0;
    while i < n
        invariant
            0 <= i <= n,
            n == points@.len(),
            n >= 2,
            out@.len() == 2 * i,
            forall|j: int|
                0 <= j < i ==> extrude.ensures(
                    (
                        j as usize,
                        &points@[j],
                        &points@[tangent_span_of(j, n as int).0],
                        &points@[tangent_span_of(j, n as int).1],
                    ),
                    (#[trigger] out@[2 * j], out@[2 * j + 1]),
                ),
            forall|i: usize, p: P, from: P, to: P| extrude.requires((i, &p, &from, &to)),
        decreases n - i,
    {
        let (from, to) = tangent_span(i, n);
        let (left, right) = extrude(i, &points[i], &points[from], &points[to]);
        out.push(left);
        out.push(right);
        i += 1;
    }
    out
}

} // verus!
