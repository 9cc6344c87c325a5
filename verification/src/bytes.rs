//! Little-endian decoding and encoding of the fixed-width integers that the
//! resource tree and the counter window are made of.

use vstd::prelude::*;
use vstd::bytes::*;
use vstd::slice::*;

verus! {

/// The little-endian `u16` stored at byte offset `i` of `s`.
pub open spec fn u16_at(s: Seq<u8>, i: int) -> u16 {
    spec_u16_from_le_bytes(s.subrange(i, i + 2))
}

/// The little-endian `u32` stored at byte offset `i` of `s`.
pub open spec fn u32_at(s: Seq<u8>, i: int) -> u32 {
    spec_u32_from_le_bytes(s.subrange(i, i + 4))
}

/// The little-endian `u64` stored at byte offset `i` of `s`.
pub open spec fn u64_at(s: Seq<u8>, i: int) -> u64 {
    spec_u64_from_le_bytes(s.subrange(i, i + 8))
}

/// Reads the little-endian `u16` at byte offset `i`.
pub fn read_u16_at(s: &[u8], i: usize) -> (r: u16)
    requires
        i + 2 <= s@.len(),
    ensures
        r == u16_at(s@, i as int),
{
    let n: usize = s.len();
    assert(i + 2 <= n);
    u16_from_le_bytes(slice_subrange(s, i, i + 2))
}

/// Reads the little-endian `u32` at byte offset `i`.
pub fn read_u32_at(s: &[u8], i: usize) -> (r: u32)
    requires
        i + 4 <= s@.len(),
    ensures
        r == u32_at(s@, i as int),
{
    let n: usize = s.len();
    assert(i + 4 <= n);
    u32_from_le_bytes(slice_subrange(s, i, i + 4))
}

/// Reads the little-endian `u64` at byte offset `i`.
pub fn read_u64_at(s: &[u8], i: usize) -> (r: u64)
    requires
        i + 8 <= s@.len(),
    ensures
        r == u64_at(s@, i as int),
{
    let n: usize = s.len();
    assert(i + 8 <= n);
    u64_from_le_bytes(slice_subrange(s, i, i + 8))
}

/// `s` with the eight bytes at `pos` replaced by the little-endian bytes of `v`.
pub open spec fn spliced(s: Seq<u8>, pos: int, v: u64) -> Seq<u8> {
    s.subrange(0, pos) + spec_u64_to_le_bytes(v) + s.subrange(pos + 8, s.len() as int)
}

/// Overwrites the eight bytes at `pos` with the little-endian bytes of `v`;
/// every byte outside that window keeps its value.
pub fn write_u64_at(buf: &mut Vec<u8>, pos: usize, v: u64)
    requires
        pos + 8 <= old(buf)@.len(),
    ensures
        final(buf)@ == spliced(old(buf)@, pos as int, v),
        final(buf)@.len() == old(buf)@.len(),
        u64_at(final(buf)@, pos as int) == v,
{
    let le = u64_to_le_bytes(v);
    let total: usize = buf.len();
    let ghost orig = buf@;
    let mut k: usize = 0;
    while k < 8
        invariant
            pos + 8 <= orig.len(),
            orig.len() == total,
            buf@.len() == orig.len(),
            le@ == spec_u64_to_le_bytes(v),
            le@.len() == 8,
            0 <= k <= 8,
            forall|j: int| 0 <= j < orig.len() && !(pos <= j < pos + k) ==> buf@[j] == orig[j],
            forall|j: int| 0 <= j < k ==> buf@[pos + j] == le@[j],
        decreases 8 - k,
    {
        let b = le[k];
        buf[pos + k] = b;
        k += 1;
    }
    proof {
        assert(buf@ =~= spliced(orig, pos as int, v));
        assert(buf@.subrange(pos as int, pos as int + 8) =~= spec_u64_to_le_bytes(v));
        lemma_auto_spec_u64_to_from_le_bytes();
    }
}

/// Law: decoding the eight little-endian bytes of `v` yields `v` back, and
/// re-encoding the decoding of an eight-byte window restores that window.
pub proof fn lemma_le_round_trip(v: u64, w: Seq<u8>)
    requires
        w.len() == 8,
    ensures
        spec_u64_from_le_bytes(spec_u64_to_le_bytes(v)) == v,
        spec_u64_to_le_bytes(spec_u64_from_le_bytes(w)) == w,
{
    lemma_auto_spec_u64_to_from_le_bytes();
}

} // verus!
