//! Planning the buffer pipeline for one dispatch: the exact contents
//! and byte sizes of every buffer the kernel is bound to, the binding
//! slot of each, and the workgroup count; and the readback side, which
//! turns the two staging buffers back into the filtered point list.

use vstd::prelude::*;

use crate::assemble::{assemble, lemma_assemble_matches_filter, spec_assemble};
use crate::codec::{
    decode_points, decode_sentinels, encode_points, encode_rect, lemma_points_le_round_trip,
    spec_decode_points, spec_decode_sentinels, spec_points_le, spec_rect_le,
};
use crate::filter::spec_filter;
use crate::geometry::{spec_classify, ComputeRect, Point};

verus! {

/// Binding slot of the read-only input point buffer.
pub const BINDING_INPUT_POINTS: u32 = 0;

/// Binding slot of the read-only rectangle buffer.
pub const BINDING_RECT: u32 = 1;

/// Binding slot of the read-write output point buffer.
pub const BINDING_OUTPUT_POINTS: u32 = 2;

/// Binding slot of the read-write sentinel buffer.
pub const BINDING_SENTINELS: u32 = 3;

/// Everything one kernel dispatch needs, decided up front: buffer
/// contents, buffer sizes and the invocation count.
pub struct DispatchPlan {
    /// Contents of the input point buffer, eight bytes per point.
    pub point_data: Vec<u8>,
    /// Contents of the rectangle buffer, sixteen bytes.
    pub rect_data: Vec<u8>,
    /// Byte size shared by the input, output and point staging
    /// buffers.
    pub point_buffer_len: usize,
    /// Byte size shared by the sentinel output and staging buffers:
    /// one 32-bit value per point.
    pub sentinel_buffer_len: usize,
    /// One kernel invocation per input point.
    pub workgroups: u32,
}

/// A plan is exactly right for `ps` and `r`: the upload buffers carry
/// their encodings, every byte size matches the point count, and one
/// invocation is dispatched per point.
pub open spec fn plan_matches(plan: DispatchPlan, ps: Seq<Point>, r: ComputeRect) -> bool {
    &&& plan.point_data@ == spec_points_le(ps)
    &&& plan.rect_data@ == spec_rect_le(r)
    &&& plan.point_buffer_len == 8 * ps.len()
    &&& plan.sentinel_buffer_len == 4 * ps.len()
    &&& plan.workgroups == ps.len()
}

/// Lays out one dispatch for `points` against `rect`. A dispatch with
/// zero points is legal and yields zero-sized buffers.
pub fn plan_dispatch(points: &Vec<Point>, rect: &ComputeRect) -> (plan: DispatchPlan)
    requires
        8 * points@.len() <= usize::MAX,
        points@.len() <= u32::MAX,
    ensures
        plan_matches(plan, points@, *rect),
{
    let point_data = encode_points(points);
    let rect_data = encode_rect(rect);
    let n: usize = points.len();
    DispatchPlan {
        point_data,
        rect_data,
        point_buffer_len: 8 * n,
        sentinel_buffer_len: 4 * n,
        workgroups: n as u32,
    }
}

/// Rebuilds the response from the two staging buffers once both are
/// readable: decodes one point per eight bytes and one sentinel per
/// four, then keeps each point whose sentinel marks it inside. The
/// buffer sizes must agree as the plan laid them out; a mismatch is a
/// programming error, not a runtime condition.
pub fn read_back(point_bytes: &Vec<u8>, sentinel_bytes: &Vec<u8>) -> (out: Vec<Point>)
    requires
        point_bytes@.len() % 8 == 0,
        sentinel_bytes@.len() % 4 == 0,
        sentinel_bytes@.len() / 4 == point_bytes@.len() / 8,
    ensures
        out@ == spec_assemble(
            spec_decode_points(point_bytes@),
            spec_decode_sentinels(sentinel_bytes@),
        ),
{
    let points = decode_points(point_bytes);
    let sentinels = decode_sentinels(sentinel_bytes);
    assemble(&points, &sentinels)
}

/// The whole pipeline computes the query: when the output staging
/// buffer carries the uploaded points back and every sentinel is what
/// the kernel convention demands, decoding and assembling the staging
/// buffers yields exactly the filtered subsequence.
pub proof fn lemma_pipeline_round_trip(ps: Seq<Point>, sentinels: Seq<i32>, r: ComputeRect)
    requires
        sentinels.len() == ps.len(),
        forall|i: int| 0 <= i < ps.len() ==> sentinels[i] == spec_classify(#[trigger] ps[i], r),
    ensures
        spec_assemble(spec_decode_points(spec_points_le(ps)), sentinels) == spec_filter(ps, r),
{
    lemma_points_le_round_trip(ps);
    lemma_assemble_matches_filter(ps, sentinels, r);
}

} // verus!
