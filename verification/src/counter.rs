//! The counter accessor: reads and writes the eight-byte counter window at a
//! computed absolute offset of an image held in memory, and steps the count.

use vstd::prelude::*;
use vstd::bytes::*;
use crate::bytes::{u64_at, spliced, read_u64_at, write_u64_at};

verus! {

/// Reads the counter: the little-endian `u64` at `base + offset` of `image`.
pub fn read_counter(image: &[u8], base: usize, offset: usize) -> (r: u64)
    requires
        base + offset + 8 <= image@.len(),
    ensures
        r == u64_at(image@, base + offset),
{
    let n: usize = image.len();
    assert(base + offset + 8 <= n);
    read_u64_at(image, base + offset)
}

/// Writes `value` as the counter: the eight bytes at `base + offset` become
/// the little-endian bytes of `value`; all other bytes keep their values.
pub fn write_counter(image: &mut Vec<u8>, base: usize, offset: usize, value: u64)
    requires
        base + offset + 8 <= old(image)@.len(),
    ensures
        final(image)@ == spliced(old(image)@, base + offset, value),
        final(image)@.len() == old(image)@.len(),
        u64_at(final(image)@, base + offset) == value,
{
    let n: usize = image.len();
    assert(base + offset + 8 <= n);
    write_u64_at(image, base + offset, value)
}

/// Law: writing `value` into the window at `pos` and reading the same window
/// back yields `value`, the length is unchanged, and every byte outside the
/// window keeps its old value.
pub proof fn lemma_write_read_round_trip(s: Seq<u8>, pos: int, value: u64)
    requires
        0 <= pos,
        pos + 8 <= s.len(),
    ensures
        u64_at(spliced(s, pos, value), pos) == value,
        spliced(s, pos, value).len() == s.len(),
        forall|j: int| 0 <= j < s.len() && !(pos <= j < pos + 8) ==> spliced(s, pos, value)[j] == s[j],
{
    lemma_auto_spec_u64_to_from_le_bytes();
    assert(spliced(s, pos, value).subrange(pos, pos + 8) =~= spec_u64_to_le_bytes(value));
}

/// The counter value that follows `c`: one more, wrapping to zero past `u64::MAX`.
pub open spec fn wrap_inc(c: u64) -> u64 {
    if c == u64::MAX {
        0u64
    } else {
        (c + 1) as u64
    }
}

/// Steps the counter by one invocation, wrapping at the 64-bit boundary.
pub fn next_count(c: u64) -> (r: u64)
    ensures
        r == wrap_inc(c),
{
    if c == u64::MAX {
        0
    } else {
        c + 1
    }
}

} // verus!
