use crate::error::ConvertError;
use crate::types::BinPoint;
use vstd::bytes::{
    lemma_auto_spec_u32_to_from_le_bytes, spec_u32_from_le_bytes, spec_u32_to_le_bytes,
    u32_from_le_bytes, u32_to_le_bytes,
};
use vstd::prelude::*;
use vstd::slice::slice_subrange;

verus! {

/// The 16 bytes of one raw-binary record: the point's four 32-bit values,
/// little-endian, in the order x, y, z, intensity.
pub open spec fn spec_record_bytes(p: BinPoint) -> Seq<u8> {
    spec_u32_to_le_bytes(p.x_bits) + spec_u32_to_le_bytes(p.y_bits) + spec_u32_to_le_bytes(
        p.z_bits,
    ) + spec_u32_to_le_bytes(p.intensity_bits)
}

/// The bytes of a whole raw-binary dump: the records in order.
pub open spec fn spec_points_bytes(points: Seq<BinPoint>) -> Seq<u8>
    decreases points.len(),
{
    if points.len() == 0 {
        Seq::empty()
    } else {
        spec_points_bytes(points.drop_last()) + spec_record_bytes(points.last())
    }
}

/// A dump holds 16 bytes for each point.
pub proof fn lemma_points_bytes_len(points: Seq<BinPoint>)
    ensures
        spec_points_bytes(points).len() == 16 * points.len(),
    decreases points.len(),
{
    lemma_auto_spec_u32_to_from_le_bytes();
    if points.len() > 0 {
        lemma_points_bytes_len(points.drop_last());
    }
}

/// A record's bytes pin the record down.
proof fn lemma_record_bytes_injective(a: BinPoint, b: BinPoint)
    requires
        spec_record_bytes(a) == spec_record_bytes(b),
    ensures
        a == b,
{
    lemma_auto_spec_u32_to_from_le_bytes();
    let sa = spec_record_bytes(a);
    let sb = spec_record_bytes(b);
    assert(spec_u32_to_le_bytes(a.x_bits) =~= sa.subrange(0, 4));
    assert(spec_u32_to_le_bytes(a.y_bits) =~= sa.subrange(4, 8));
    assert(spec_u32_to_le_bytes(a.z_bits) =~= sa.subrange(8, 12));
    assert(spec_u32_to_le_bytes(a.intensity_bits) =~= sa.subrange(12, 16));
    assert(spec_u32_to_le_bytes(b.x_bits) =~= sb.subrange(0, 4));
    assert(spec_u32_to_le_bytes(b.y_bits) =~= sb.subrange(4, 8));
    assert(spec_u32_to_le_bytes(b.z_bits) =~= sb.subrange(8, 12));
    assert(spec_u32_to_le_bytes(b.intensity_bits) =~= sb.subrange(12, 16));
    assert(a.x_bits == spec_u32_from_le_bytes(spec_u32_to_le_bytes(a.x_bits)));
    assert(a.y_bits == spec_u32_from_le_bytes(spec_u32_to_le_bytes(a.y_bits)));
    assert(a.z_bits == spec_u32_from_le_bytes(spec_u32_to_le_bytes(a.z_bits)));
    assert(a.intensity_bits == spec_u32_from_le_bytes(spec_u32_to_le_bytes(a.intensity_bits)));
}

/// Encoding is lossless: two point sequences with the same bytes are the
/// same sequence.
pub proof fn lemma_points_bytes_injective(a: Seq<BinPoint>, b: Seq<BinPoint>)
    requires
        spec_points_bytes(a) == spec_points_bytes(b),
    ensures
        a == b,
    decreases a.len(),
{
    lemma_points_bytes_len(a);
    lemma_points_bytes_len(b);
    if a.len() == 0 {
        assert(a =~= b);
    } else {
        let bytes = spec_points_bytes(a);
        let n = bytes.len();
        lemma_points_bytes_len(a.drop_last());
        lemma_points_bytes_len(b.drop_last());
        assert(spec_points_bytes(a.drop_last()) =~= bytes.subrange(0, n - 16));
        assert(spec_points_bytes(b.drop_last()) =~= bytes.subrange(0, n - 16));
        assert(spec_record_bytes(a.last()) =~= bytes.subrange(n - 16, n as int));
        assert(spec_record_bytes(b.last()) =~= bytes.subrange(n - 16, n as int));
        lemma_record_bytes_injective(a.last(), b.last());
        lemma_points_bytes_injective(a.drop_last(), b.drop_last());
        assert forall|i: int| 0 <= i < a.len() implies a[i] == b[i] by {
            if i < a.len() - 1 {
                assert(a.drop_last()[i] == b.drop_last()[i]);
            } else {
                assert(a.last() == b.last());
            }
        }
        assert(a =~= b);
    }
}

/// Encode one point as its 16-byte record.
pub fn encode_record(p: &BinPoint) -> (r: Vec<u8>)
    ensures
        r@ == spec_record_bytes(*p),
{
    let mut out = u32_to_le_bytes(p.x_bits);
    let mut y = u32_to_le_bytes(p.y_bits);
    let mut z = u32_to_le_bytes(p.z_bits);
    let mut intensity = u32_to_le_bytes(p.intensity_bits);
    out.append(&mut y);
    out.append(&mut z);
    out.append(&mut intensity);
    out
}

/// Encode a point sequence as a whole raw-binary dump.
pub fn encode_raw_bin(points: &Vec<BinPoint>) -> (r: Vec<u8>)
    ensures
        r@ == spec_points_bytes(points@),
{
    let mut out: Vec<u8> = Vec::new();
    let mut i: usize = 0;
    while i < points.len()
        invariant
            i <= points@.len(),
            out@ == spec_points_bytes(points@.take(i as int)),
        decreases points@.len() - i,
    {
        let mut record = encode_record(&points[i]);
        out.append(&mut record);
        proof {
            assert(points@.take(i + 1).drop_last() =~= points@.take(i as int));
            assert(points@.take(i + 1).last() == points@[i as int]);
        }
        i = i + 1;
    }
    proof {
        assert(points@.take(points@.len() as int) =~= points@);
    }
    out
}

/// Decode a raw-binary dump. The file must end exactly on a record
/// boundary: a partial trailing record is a corruption error, never a
/// silent end of stream.
pub fn decode_raw_bin(bytes: &[u8]) -> (r: Result<Vec<BinPoint>, ConvertError>)
    ensures
        r is Ok <==> bytes@.len() % 16 == 0,
        r matches Ok(points) ==> points@.len() * 16 == bytes@.len() && spec_points_bytes(points@)
            == bytes@,
        r matches Err(e) ==> e == ConvertError::TruncatedRecord,
{
    let n = bytes.len();
    if n % 16 != 0 {
        return Err(ConvertError::TruncatedRecord);
    }
    let mut points: Vec<BinPoint> = Vec::new();
    let mut i: usize = 0;
    proof {
        lemma_auto_spec_u32_to_from_le_bytes();
    }
    while i < n
        invariant
            i <= n == bytes@.len(),
            i % 16 == 0,
            n % 16 == 0,
            points@.len() * 16 == i,
            spec_points_bytes(points@) == bytes@.subrange(0, i as int),
        decreases n - i,
    {
        proof {
            lemma_auto_spec_u32_to_from_le_bytes();
        }
        let x_bits = u32_from_le_bytes(slice_subrange(bytes, i, i + 4));
        let y_bits = u32_from_le_bytes(slice_subrange(bytes, i + 4, i + 8));
        let z_bits = u32_from_le_bytes(slice_subrange(bytes, i + 8, i + 12));
        let intensity_bits = u32_from_le_bytes(slice_subrange(bytes, i + 12, i + 16));
        let p = BinPoint { x_bits, y_bits, z_bits, intensity_bits };
        proof {
            assert(spec_record_bytes(p) =~= bytes@.subrange(i as int, i + 16)) by {
                assert(spec_u32_to_le_bytes(p.x_bits) =~= bytes@.subrange(i as int, i + 4));
                assert(spec_u32_to_le_bytes(p.y_bits) =~= bytes@.subrange(i + 4, i + 8));
                assert(spec_u32_to_le_bytes(p.z_bits) =~= bytes@.subrange(i + 8, i + 12));
                assert(spec_u32_to_le_bytes(p.intensity_bits) =~= bytes@.subrange(i + 12, i + 16));
            }
        }
        let ghost prev = points@;
        points.push(p);
        proof {
            assert(points@.drop_last() =~= prev);
            assert(points@.last() == p);
            assert(spec_points_bytes(points@) =~= bytes@.subrange(0, i + 16)) by {
                assert(bytes@.subrange(0, i + 16) =~= bytes@.subrange(0, i as int) + bytes@.subrange(
                    i as int,
                    i + 16,
                ));
            }
        }
        i = i + 16;
    }
    proof {
        assert(bytes@.subrange(0, n as int) =~= bytes@);
    }
    Ok(points)
}

} // verus!
