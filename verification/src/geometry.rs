//! Points, rectangles, and the inclusion predicate that the compute kernel
//! evaluates for every input point.

use vstd::prelude::*;

verus! {

/// Sentinel value the kernel writes for a point that lies inside the
/// query rectangle; every other value marks the point as outside.
pub const INSIDE_SENTINEL: i32 = -1;

/// A point in the plane, held as plain 32-bit coordinates so that the
/// inclusion predicate is exact.
#[derive(Clone, Copy, PartialEq, Eq, Structural, Debug)]
pub struct Point {
    pub x: i32,
    pub y: i32,
}

/// An axis-aligned rectangle given by two corner points. Callers are
/// responsible for `min.x <= max.x` and `min.y <= max.y`; an inverted
/// rectangle contains no point at all.
#[derive(Clone, Copy, PartialEq, Eq, Structural, Debug)]
pub struct ComputeRect {
    pub min: Point,
    pub max: Point,
}

/// Boundary-inclusive containment on both axes.
pub open spec fn spec_inside(p: Point, r: ComputeRect) -> bool {
    r.min.x <= p.x <= r.max.x && r.min.y <= p.y <= r.max.y
}

/// The sentinel the kernel is specified to produce for `p` against `r`.
pub open spec fn spec_classify(p: Point, r: ComputeRect) -> i32 {
    if spec_inside(p, r) {
        INSIDE_SENTINEL
    } else {
        0
    }
}

/// Decides boundary-inclusive containment of `p` in `r`.
pub fn inside(p: Point, r: ComputeRect) -> (b: bool)
    ensures
        b == spec_inside(p, r),
{
    r.min.x <= p.x && p.x <= r.max.x && r.min.y <= p.y && p.y <= r.max.y
}

/// Classifies one point exactly as the kernel convention demands:
/// `INSIDE_SENTINEL` inside the rectangle, `0` outside.
pub fn classify(p: Point, r: ComputeRect) -> (s: i32)
    ensures
        s == spec_classify(p, r),
        s == INSIDE_SENTINEL <==> spec_inside(p, r),
{
    if inside(p, r) {
        INSIDE_SENTINEL
    } else {
        0
    }
}

/// Evaluates the kernel convention on the host for every input point:
/// one sentinel per point, `INSIDE_SENTINEL` exactly where the point
/// lies inside the rectangle.
pub fn classify_all(points: &Vec<Point>, rect: &ComputeRect) -> (s: Vec<i32>)
    ensures
        s@.len() == points@.len(),
        forall|i: int| 0 <= i < points@.len() ==> s@[i] == spec_classify(
            #[trigger] points@[i],
            *rect,
        ),
{
    let mut s: Vec<i32> = Vec::new();
    let mut i: usize = 0;
    while i < points.len()
        invariant
            i <= points@.len(),
            s@.len() == i,
            forall|j: int| 0 <= j < i ==> s@[j] == spec_classify(#[trigger] points@[j], *rect),
        decreases points@.len() - i,
    {
        s.push(classify(points[i], *rect));
        i = i + 1;
    }
    s
}

} // verus!
