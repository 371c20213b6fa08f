//! The filtering query itself: which points of a sequence lie inside a
//! rectangle, in original relative order.

use vstd::prelude::*;

use crate::geometry::{inside, spec_inside, ComputeRect, Point};

verus! {

/// The subset of `ps` inside `r`, in original relative order.
pub open spec fn spec_filter(ps: Seq<Point>, r: ComputeRect) -> Seq<Point>
    decreases ps.len(),
{
    if ps.len() == 0 {
        Seq::empty()
    } else {
        let rest = spec_filter(ps.drop_last(), r);
        if spec_inside(ps.last(), r) {
            rest.push(ps.last())
        } else {
            rest
        }
    }
}

/// Evaluates the query on the host: returns exactly the points of
/// `points` that lie inside `rect`, boundary inclusive, keeping their
/// original relative order. The result is a function of the arguments
/// alone, so repeated calls on equal arguments return equal results.
pub fn compute(points: &Vec<Point>, rect: &ComputeRect) -> (out: Vec<Point>)
    ensures
        out@ == spec_filter(points@, *rect),
{
    let mut out: Vec<Point> = Vec::new();
    let mut i: usize = 0;
    while i < points.len()
        invariant
            i <= points@.len(),
            out@ == spec_filter(points@.take(i as int), *rect),
        decreases points@.len() - i,
    {
        proof {
            assert(points@.take(i + 1).drop_last() =~= points@.take(i as int));
            assert(points@.take(i + 1).last() == points@[i as int]);
        }
        let p = points[i];
        if inside(p, *rect) {
            out.push(p);
        }
        i = i + 1;
    }
    proof {
        assert(points@.take(points@.len() as int) =~= points@);
    }
    out
}

/// The filtered sequence holds a point if and only if the input holds it
/// and it lies inside the rectangle: nothing is invented and nothing
/// inside the rectangle is lost.
pub proof fn lemma_filter_members(ps: Seq<Point>, r: ComputeRect)
    ensures
        forall|p: Point| spec_filter(ps, r).contains(p) <==> ps.contains(p) && spec_inside(p, r),
    decreases ps.len(),
{
    if ps.len() == 0 {
        assert(forall|p: Point| !ps.contains(p));
    } else {
        lemma_filter_members(ps.drop_last(), r);
        assert forall|p: Point| ps.contains(p) implies ps.drop_last().contains(p) || p
            == ps.last() by {
            let i = choose|i: int| 0 <= i < ps.len() && ps[i] == p;
            if i < ps.len() - 1 {
                assert(ps.drop_last()[i] == p);
            }
        }
        assert forall|p: Point| ps.drop_last().contains(p) implies ps.contains(p) by {
            let i = choose|i: int| 0 <= i < ps.drop_last().len() && ps.drop_last()[i] == p;
            assert(ps[i] == p);
        }
        assert(ps.contains(ps.last()));
        assert forall|p: Point| spec_filter(ps, r).contains(p) implies ps.contains(p)
            && spec_inside(p, r) by {
            if spec_inside(ps.last(), r) {
                let f = spec_filter(ps.drop_last(), r).push(ps.last());
                if f.contains(p) {
                    let i = choose|i: int| 0 <= i < f.len() && f[i] == p;
                    if i < f.len() - 1 {
                        assert(spec_filter(ps.drop_last(), r)[i] == p);
                        assert(spec_filter(ps.drop_last(), r).contains(p));
                    }
                }
            }
        }
        assert forall|p: Point| ps.contains(p) && spec_inside(p, r) implies spec_filter(
            ps,
            r,
        ).contains(p) by {
            if p == ps.last() {
                let f = spec_filter(ps.drop_last(), r).push(ps.last());
                assert(f[f.len() - 1] == p);
            } else {
                assert(ps.drop_last().contains(p));
                let g = spec_filter(ps.drop_last(), r);
                let i = choose|i: int| 0 <= i < g.len() && g[i] == p;
                if spec_inside(ps.last(), r) {
                    assert(g.push(ps.last())[i] == p);
                }
            }
        }
    }
}

/// Filtering the empty sequence yields the empty sequence, whatever the
/// rectangle.
pub proof fn lemma_filter_empty(r: ComputeRect)
    ensures
        spec_filter(Seq::<Point>::empty(), r) == Seq::<Point>::empty(),
{
}

/// A rectangle that covers every point of the input returns the input
/// unchanged: filtering is the order-preserving identity there.
pub proof fn lemma_filter_all_inside(ps: Seq<Point>, r: ComputeRect)
    requires
        forall|i: int| 0 <= i < ps.len() ==> spec_inside(#[trigger] ps[i], r),
    ensures
        spec_filter(ps, r) == ps,
    decreases ps.len(),
{
    if ps.len() > 0 {
        lemma_filter_all_inside(ps.drop_last(), r);
        assert(spec_inside(ps.last(), r));
        assert(ps.drop_last().push(ps.last()) =~= ps);
    }
}

/// The filter keeps original relative order: the output is the input
/// read at a strictly increasing sequence of indices, every one of
/// which lies inside the rectangle.
pub proof fn lemma_filter_ordered(ps: Seq<Point>, r: ComputeRect) -> (idx: Seq<int>)
    ensures
        idx.len() == spec_filter(ps, r).len(),
        forall|j: int| 0 <= j < idx.len() ==> 0 <= #[trigger] idx[j] < ps.len(),
        forall|j: int| 0 <= j < idx.len() ==> spec_filter(ps, r)[j] == ps[#[trigger] idx[j]],
        forall|j: int| 0 <= j < idx.len() ==> spec_inside(ps[#[trigger] idx[j]], r),
        forall|j: int| 0 < j < idx.len() ==> idx[j - 1] < #[trigger] idx[j],
    decreases ps.len(),
{
    if ps.len() == 0 {
        Seq::empty()
    } else {
        let prev = lemma_filter_ordered(ps.drop_last(), r);
        assert(forall|j: int|
            0 <= j < prev.len() ==> ps.drop_last()[#[trigger] prev[j]] == ps[prev[j]]);
        if spec_inside(ps.last(), r) {
            let idx = prev.push(ps.len() - 1);
            let out = spec_filter(ps, r);
            assert(out == spec_filter(ps.drop_last(), r).push(ps.last()));
            assert(forall|j: int| 0 <= j < prev.len() ==> idx[j] == #[trigger] prev[j]);
            assert(forall|j: int|
                0 <= j < prev.len() ==> out[j] == #[trigger] spec_filter(ps.drop_last(), r)[j]);
            assert(out[idx.len() - 1] == ps[idx[idx.len() - 1]]);
            idx
        } else {
            prev
        }
    }
}

/// Two results that both satisfy `compute`'s postcondition for the same
/// arguments are equal: the query has no hidden state.
pub proof fn lemma_compute_deterministic(
    ps: Seq<Point>,
    r: ComputeRect,
    out1: Seq<Point>,
    out2: Seq<Point>,
)
    requires
        out1 == spec_filter(ps, r),
        out2 == spec_filter(ps, r),
    ensures
        out1 == out2,
{
}

} // verus!
