//! The result assembler: compacting the kernel's two parallel output
//! buffers (candidate points and per-point sentinels) into the final
//! filtered list.

use vstd::prelude::*;

use crate::filter::spec_filter;
use crate::geometry::{spec_classify, spec_inside, ComputeRect, Point, INSIDE_SENTINEL};

verus! {

/// The points whose parallel sentinel is `INSIDE_SENTINEL`, in index
/// order. Meaningful when both sequences have the same length.
pub open spec fn spec_assemble(points: Seq<Point>, sentinels: Seq<i32>) -> Seq<Point>
    decreases points.len(),
{
    if points.len() == 0 || sentinels.len() == 0 {
        Seq::empty()
    } else {
        let rest = spec_assemble(points.drop_last(), sentinels.drop_last());
        if sentinels.last() == INSIDE_SENTINEL {
            rest.push(points.last())
        } else {
            rest
        }
    }
}

/// Walks the whole sentinel buffer, every index up to and including the
/// last, and keeps `points[i]` exactly where `sentinels[i]` is
/// `INSIDE_SENTINEL`, preserving index order.
pub fn assemble(points: &Vec<Point>, sentinels: &Vec<i32>) -> (out: Vec<Point>)
    requires
        points@.len() == sentinels@.len(),
    ensures
        out@ == spec_assemble(points@, sentinels@),
{
    let mut out: Vec<Point> = Vec::new();
    let mut i: usize = 0;
    while i < sentinels.len()
        invariant
            i <= sentinels@.len(),
            points@.len() == sentinels@.len(),
            out@ == spec_assemble(points@.take(i as int), sentinels@.take(i as int)),
        decreases sentinels@.len() - i,
    {
        proof {
            assert(points@.take(i + 1).drop_last() =~= points@.take(i as int));
            assert(sentinels@.take(i + 1).drop_last() =~= sentinels@.take(i as int));
            assert(points@.take(i + 1).last() == points@[i as int]);
            assert(sentinels@.take(i + 1).last() == sentinels@[i as int]);
        }
        if sentinels[i] == INSIDE_SENTINEL {
            out.push(points[i]);
        }
        i = i + 1;
    }
    proof {
        assert(points@.take(points@.len() as int) =~= points@);
        assert(sentinels@.take(sentinels@.len() as int) =~= sentinels@);
    }
    out
}

/// If every sentinel is what the kernel convention demands for its point
/// against `r`, then assembling the buffers yields exactly the filtered
/// subsequence: the sentinel-mask protocol computes the query.
pub proof fn lemma_assemble_matches_filter(points: Seq<Point>, sentinels: Seq<i32>, r: ComputeRect)
    requires
        sentinels.len() == points.len(),
        forall|i: int| 0 <= i < points.len() ==> sentinels[i] == spec_classify(
            #[trigger] points[i],
            r,
        ),
    ensures
        spec_assemble(points, sentinels) == spec_filter(points, r),
    decreases points.len(),
{
    if points.len() > 0 {
        assert(forall|i: int|
            0 <= i < points.drop_last().len() ==> points.drop_last()[i] == points[i]);
        lemma_assemble_matches_filter(points.drop_last(), sentinels.drop_last(), r);
        assert(sentinels.last() == spec_classify(points.last(), r));
        assert(sentinels.last() == INSIDE_SENTINEL <==> spec_inside(points.last(), r));
    }
}

} // verus!
