//! Byte layout of the upload and readback buffers: every 32-bit value
//! crosses the device boundary as four little-endian bytes, a point as
//! its `x` then its `y`, and the rectangle as the four values
//! `min.x, min.y, max.x, max.y` in that order.

use vstd::prelude::*;

use crate::geometry::{ComputeRect, Point};

verus! {

/// The unsigned 32-bit pattern that carries `x` in two's complement.
pub open spec fn spec_i32_bits(x: i32) -> int {
    if x >= 0 {
        x as int
    } else {
        x as int + 0x1_0000_0000
    }
}

/// The four little-endian bytes of a value `u` with `0 <= u < 2^32`.
pub open spec fn spec_le_bytes(u: int) -> Seq<u8> {
    seq![
        (u % 256) as u8,
        ((u / 256) % 256) as u8,
        ((u / 65536) % 256) as u8,
        ((u / 16777216) % 256) as u8,
    ]
}

/// The four little-endian bytes of a signed 32-bit value.
pub open spec fn spec_i32_le(x: i32) -> Seq<u8> {
    spec_le_bytes(spec_i32_bits(x))
}

/// The unsigned value carried by four little-endian bytes.
pub open spec fn spec_le_val(b: Seq<u8>) -> int {
    b[0] + 256 * b[1] + 65536 * b[2] + 16777216 * b[3]
}

/// The signed 32-bit value carried by four little-endian bytes.
pub open spec fn spec_i32_from_le(b: Seq<u8>) -> i32 {
    let v = spec_le_val(b);
    if v < 0x8000_0000 {
        v as i32
    } else {
        (v - 0x1_0000_0000) as i32
    }
}

/// Appends the four little-endian bytes of `x` to `out`.
pub fn push_i32_le(out: &mut Vec<u8>, x: i32)
    ensures
        final(out)@ == old(out)@ + spec_i32_le(x),
{
    let u: u32 = if x >= 0 {
        x as u32
    } else {
        ((x as i64) + 0x1_0000_0000i64) as u32
    };
    proof {
        assert(u as int == spec_i32_bits(x));
    }
    out.push((u % 256) as u8);
    out.push(((u / 256) % 256) as u8);
    out.push(((u / 65536) % 256) as u8);
    out.push(((u / 16777216) % 256) as u8);
    proof {
        assert(out@ =~= old(out)@ + spec_i32_le(x));
    }
}

/// Reads one signed 32-bit value from four little-endian bytes.
pub fn i32_from_le(b0: u8, b1: u8, b2: u8, b3: u8) -> (x: i32)
    ensures
        x == spec_i32_from_le(seq![b0, b1, b2, b3]),
{
    let u: u32 = (b0 as u32) + 256 * (b1 as u32) + 65536 * (b2 as u32) + 16777216 * (b3 as u32);
    if u < 0x8000_0000 {
        u as i32
    } else {
        let m: u32 = 0xFFFF_FFFFu32 - u;
        -(m as i32) - 1
    }
}

/// Reassembling the four little-endian bytes of a 32-bit pattern gives
/// the pattern back.
proof fn lemma_le_bytes_val(u: int)
    requires
        0 <= u < 0x1_0000_0000,
    ensures
        spec_le_val(spec_le_bytes(u)) == u,
{
    let w: u32 = u as u32;
    assert((w % 256) + 256 * ((w / 256) % 256) + 65536 * ((w / 65536) % 256) + 16777216 * ((w
        / 16777216) % 256) == w) by (bit_vector);
}

/// Decoding the encoding of any signed 32-bit value gives the value
/// back.
pub proof fn lemma_i32_le_round_trip(x: i32)
    ensures
        spec_i32_from_le(spec_i32_le(x)) == x,
{
    lemma_le_bytes_val(spec_i32_bits(x));
}

/// The eight bytes of one point: `x` first, then `y`.
pub open spec fn spec_point_le(p: Point) -> Seq<u8> {
    spec_i32_le(p.x) + spec_i32_le(p.y)
}

/// The input buffer contents for a point sequence: eight bytes per
/// point, in sequence order.
pub open spec fn spec_points_le(ps: Seq<Point>) -> Seq<u8>
    decreases ps.len(),
{
    if ps.len() == 0 {
        Seq::empty()
    } else {
        spec_points_le(ps.drop_last()) + spec_point_le(ps.last())
    }
}

/// The sixteen bytes of the rectangle uniform: four consecutive 32-bit
/// values in the order `min.x, min.y, max.x, max.y`.
pub open spec fn spec_rect_le(r: ComputeRect) -> Seq<u8> {
    spec_i32_le(r.min.x) + spec_i32_le(r.min.y) + spec_i32_le(r.max.x) + spec_i32_le(r.max.y)
}

/// The point buffer is exactly eight bytes per point.
pub proof fn lemma_points_le_len(ps: Seq<Point>)
    ensures
        spec_points_le(ps).len() == 8 * ps.len(),
    decreases ps.len(),
{
    if ps.len() > 0 {
        lemma_points_le_len(ps.drop_last());
    }
}

/// Builds the input buffer for `ps`: eight little-endian bytes per
/// point, in sequence order.
pub fn encode_points(ps: &Vec<Point>) -> (out: Vec<u8>)
    ensures
        out@ == spec_points_le(ps@),
        out@.len() == 8 * ps@.len(),
{
    let mut out: Vec<u8> = Vec::new();
    let mut i: usize = 0;
    while i < ps.len()
        invariant
            i <= ps@.len(),
            out@ == spec_points_le(ps@.take(i as int)),
        decreases ps@.len() - i,
    {
        proof {
            assert(ps@.take(i + 1).drop_last() =~= ps@.take(i as int));
            assert(ps@.take(i + 1).last() == ps@[i as int]);
        }
        let p = ps[i];
        push_i32_le(&mut out, p.x);
        push_i32_le(&mut out, p.y);
        proof {
            assert(out@ =~= spec_points_le(ps@.take(i + 1)));
        }
        i = i + 1;
    }
    proof {
        assert(ps@.take(ps@.len() as int) =~= ps@);
        lemma_points_le_len(ps@);
    }
    out
}

/// Builds the rectangle uniform buffer: sixteen bytes, corner values in
/// the fixed binding order.
pub fn encode_rect(r: &ComputeRect) -> (out: Vec<u8>)
    ensures
        out@ == spec_rect_le(*r),
        out@.len() == 16,
{
    let mut out: Vec<u8> = Vec::new();
    push_i32_le(&mut out, r.min.x);
    push_i32_le(&mut out, r.min.y);
    push_i32_le(&mut out, r.max.x);
    push_i32_le(&mut out, r.max.y);
    proof {
        assert(out@ =~= spec_rect_le(*r));
    }
    out
}

/// The sentinel values carried by a readback buffer of four-byte
/// little-endian integers.
pub open spec fn spec_decode_sentinels(b: Seq<u8>) -> Seq<i32> {
    Seq::new((b.len() / 4) as nat, |i: int| spec_i32_from_le(b.subrange(4 * i, 4 * i + 4)))
}

/// The points carried by a readback buffer of eight-byte entries.
pub open spec fn spec_decode_points(b: Seq<u8>) -> Seq<Point> {
    Seq::new(
        (b.len() / 8) as nat,
        |i: int|
            Point {
                x: spec_i32_from_le(b.subrange(8 * i, 8 * i + 4)),
                y: spec_i32_from_le(b.subrange(8 * i + 4, 8 * i + 8)),
            },
    )
}

/// Reads the sentinel staging buffer back into one value per four
/// bytes, in buffer order.
pub fn decode_sentinels(bytes: &Vec<u8>) -> (out: Vec<i32>)
    requires
        bytes@.len() % 4 == 0,
    ensures
        out@ == spec_decode_sentinels(bytes@),
{
    let n: usize = bytes.len() / 4;
    let mut out: Vec<i32> = Vec::new();
    let mut i: usize = 0;
    while i < n
        invariant
            i <= n,
            n == bytes@.len() / 4,
            bytes@.len() % 4 == 0,
            4 * (n as int) <= usize::MAX as int,
            out@.len() == i,
            forall|j: int| 0 <= j < i ==> out@[j] == spec_i32_from_le(
                bytes@.subrange(4 * j, 4 * j + 4),
            ),
        decreases n - i,
    {
        let base: usize = 4 * i;
        let v = i32_from_le(bytes[base], bytes[base + 1], bytes[base + 2], bytes[base + 3]);
        proof {
            assert(bytes@.subrange(4 * i as int, 4 * i as int + 4) =~= seq![
                bytes@[4 * i as int],
                bytes@[4 * i as int + 1],
                bytes@[4 * i as int + 2],
                bytes@[4 * i as int + 3],
            ]);
        }
        out.push(v);
        i = i + 1;
    }
    proof {
        assert(out@ =~= spec_decode_sentinels(bytes@));
    }
    out
}

/// Reads the point staging buffer back into one point per eight bytes,
/// in buffer order.
pub fn decode_points(bytes: &Vec<u8>) -> (out: Vec<Point>)
    requires
        bytes@.len() % 8 == 0,
    ensures
        out@ == spec_decode_points(bytes@),
{
    let n: usize = bytes.len() / 8;
    let mut out: Vec<Point> = Vec::new();
    let mut i: usize = 0;
    while i < n
        invariant
            i <= n,
            n == bytes@.len() / 8,
            bytes@.len() % 8 == 0,
            8 * (n as int) <= usize::MAX as int,
            out@.len() == i,
            forall|j: int| 0 <= j < i ==> out@[j] == (Point {
                x: spec_i32_from_le(bytes@.subrange(8 * j, 8 * j + 4)),
                y: spec_i32_from_le(bytes@.subrange(8 * j + 4, 8 * j + 8)),
            }),
        decreases n - i,
    {
        let base: usize = 8 * i;
        let x = i32_from_le(bytes[base], bytes[base + 1], bytes[base + 2], bytes[base + 3]);
        let y = i32_from_le(bytes[base + 4], bytes[base + 5], bytes[base + 6], bytes[base + 7]);
        proof {
            assert(bytes@.subrange(8 * i as int, 8 * i as int + 4) =~= seq![
                bytes@[8 * i as int],
                bytes@[8 * i as int + 1],
                bytes@[8 * i as int + 2],
                bytes@[8 * i as int + 3],
            ]);
            assert(bytes@.subrange(8 * i as int + 4, 8 * i as int + 8) =~= seq![
                bytes@[8 * i as int + 4],
                bytes@[8 * i as int + 5],
                bytes@[8 * i as int + 6],
                bytes@[8 * i as int + 7],
            ]);
        }
        out.push(Point { x, y });
        i = i + 1;
    }
    proof {
        assert(out@ =~= spec_decode_points(bytes@));
    }
    out
}

/// Decoding an encoded point buffer gives the point sequence back: the
/// upload layout and the readback layout agree.
pub proof fn lemma_points_le_round_trip(ps: Seq<Point>)
    ensures
        spec_decode_points(spec_points_le(ps)) == ps,
    decreases ps.len(),
{
    lemma_points_le_len(ps);
    if ps.len() == 0 {
        assert(spec_decode_points(spec_points_le(ps)) =~= ps);
    } else {
        lemma_points_le_round_trip(ps.drop_last());
        lemma_points_le_len(ps.drop_last());
        let prefix = spec_points_le(ps.drop_last());
        let b = spec_points_le(ps);
        let n = ps.len() as int;
        assert forall|i: int| 0 <= i < n implies spec_decode_points(b)[i] == ps[i] by {
            if i < n - 1 {
                assert(b.subrange(8 * i, 8 * i + 4) =~= prefix.subrange(8 * i, 8 * i + 4));
                assert(b.subrange(8 * i + 4, 8 * i + 8) =~= prefix.subrange(8 * i + 4, 8 * i + 8));
                assert(spec_decode_points(prefix)[i] == ps.drop_last()[i]);
            } else {
                let p = ps.last();
                assert(b.subrange(8 * i, 8 * i + 4) =~= spec_i32_le(p.x));
                assert(b.subrange(8 * i + 4, 8 * i + 8) =~= spec_i32_le(p.y));
                lemma_i32_le_round_trip(p.x);
                lemma_i32_le_round_trip(p.y);
            }
        }
        assert(spec_decode_points(b) =~= ps);
    }
}

} // verus!
