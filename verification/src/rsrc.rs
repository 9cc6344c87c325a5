//! The resource tree locator: walks the resource directory tree held in a
//! section's raw bytes (Type directory, then Name and Language directories,
//! then the terminal Data entry) and computes the section-relative byte offset
//! of the counter window stored past the icon resource's payload.
//!
//! Byte layout, all integers little-endian:
//! - the top-level directory header is 16 bytes; the counts of named and of
//!   id-keyed entries are the two bytes at offsets 12 and 14;
//! - each of the `total` 8-byte type entries that follow holds the resource
//!   type (2 bytes), a flag (2 bytes, unused), and the offset of that type's
//!   Name directory (2 bytes);
//! - a Name or Language directory is a 24-byte record whose 2 bytes at offset
//!   20 give the offset of the next level;
//! - a Data entry is a 16-byte record holding the payload's recorded offset
//!   and size (4 bytes each).
//!
//! Offsets recorded in Data entries follow the toolchain's own numbering, not
//! the section's: they are corrected by the reposition delta, the smallest
//! recorded payload offset minus the end of the directory chain (the largest
//! Data-entry offset plus one 24-byte record).

use vstd::prelude::*;
use crate::bytes::{u16_at, u32_at, read_u16_at, read_u32_at};

verus! {

/// The counter window sits this many bytes past the icon payload's base.
pub const ICON_COUNTER_POSITION: usize = 256;

/// The resource type value that identifies icon resources.
pub const ICON_RESOURCE_TYPE: u16 = 3;

/// Failures of the locator.
#[derive(Clone, Copy, Debug, PartialEq, Eq, Structural)]
pub enum LocateError {
    /// A computed offset or length falls outside the section bytes.
    Bounds,
    /// The resource tree holds no icon-typed entry.
    IconMissing,
}

/// The number of top-level type entries: named entries plus id-keyed entries.
pub open spec fn entry_total(sec: Seq<u8>) -> int {
    u16_at(sec, 12) + u16_at(sec, 14)
}

/// The Name-directory offset recorded in type entry `k`.
pub open spec fn name_dir_off(sec: Seq<u8>, k: int) -> int {
    u16_at(sec, 16 + 8 * k + 4) as int
}

/// The Language-directory offset recorded in entry `k`'s Name directory.
pub open spec fn lang_dir_off(sec: Seq<u8>, k: int) -> int {
    u16_at(sec, name_dir_off(sec, k) + 20) as int
}

/// The Data-entry offset recorded in entry `k`'s Language directory.
pub open spec fn data_entry_off(sec: Seq<u8>, k: int) -> int {
    u16_at(sec, lang_dir_off(sec, k) + 20) as int
}

/// The resource type recorded in type entry `k`.
pub open spec fn entry_type(sec: Seq<u8>, k: int) -> u16 {
    u16_at(sec, 16 + 8 * k)
}

/// The payload offset recorded in entry `k`'s Data entry.
pub open spec fn entry_file_off(sec: Seq<u8>, k: int) -> int {
    u32_at(sec, data_entry_off(sec, k)) as int
}

/// Every record read while walking entry `k` lies inside the section bytes.
pub open spec fn entry_in_bounds(sec: Seq<u8>, k: int) -> bool {
    &&& 16 + 8 * k + 8 <= sec.len()
    &&& name_dir_off(sec, k) + 24 <= sec.len()
    &&& lang_dir_off(sec, k) + 24 <= sec.len()
    &&& data_entry_off(sec, k) + 16 <= sec.len()
}

/// The first `n` entries all lie inside the section bytes.
pub open spec fn entries_in_bounds(sec: Seq<u8>, n: int) -> bool {
    forall|k: int| 0 <= k < n ==> #[trigger] entry_in_bounds(sec, k)
}

/// The largest Data-entry offset among the first `n` entries (0 when none).
pub open spec fn max_data_off(sec: Seq<u8>, n: int) -> int
    decreases n,
{
    if n <= 0 {
        0
    } else {
        let prev = max_data_off(sec, n - 1);
        let cur = data_entry_off(sec, n - 1);
        if cur > prev {
            cur
        } else {
            prev
        }
    }
}

/// The smallest recorded payload offset among the first `n` entries
/// (one past `u32::MAX` when none, so any entry's offset is smaller).
pub open spec fn min_file_off(sec: Seq<u8>, n: int) -> int
    decreases n,
{
    if n <= 0 {
        0x1_0000_0000
    } else {
        let prev = min_file_off(sec, n - 1);
        let cur = entry_file_off(sec, n - 1);
        if cur < prev {
            cur
        } else {
            prev
        }
    }
}

/// The recorded payload offset of the first icon-typed entry among the first
/// `n` entries, if any.
pub open spec fn first_icon_file_off(sec: Seq<u8>, n: int) -> Option<int>
    decreases n,
{
    if n <= 0 {
        None
    } else {
        match first_icon_file_off(sec, n - 1) {
            Some(v) => Some(v),
            None => if entry_type(sec, n - 1) == ICON_RESOURCE_TYPE {
                Some(entry_file_off(sec, n - 1))
            } else {
                None
            },
        }
    }
}

/// The reposition delta for the first `n` entries: smallest recorded payload
/// offset minus the end of the directory chain.
pub open spec fn reposition(sec: Seq<u8>, n: int) -> int {
    min_file_off(sec, n) - (max_data_off(sec, n) + 24)
}

/// What the locator returns for the section bytes `sec`: the section-relative
/// offset of the counter window, or the failure that stops the walk.
pub open spec fn spec_locate(sec: Seq<u8>) -> Result<usize, LocateError> {
    if sec.len() < 16 {
        Err(LocateError::Bounds)
    } else {
        let total = entry_total(sec);
        if total == 0 {
            Err(LocateError::IconMissing)
        } else if !entries_in_bounds(sec, total) {
            Err(LocateError::Bounds)
        } else if reposition(sec, total) < 0 {
            Err(LocateError::Bounds)
        } else {
            match first_icon_file_off(sec, total) {
                None => Err(LocateError::IconMissing),
                Some(foff) => {
                    let pos = foff - reposition(sec, total) + ICON_COUNTER_POSITION;
                    if pos > usize::MAX {
                        Err(LocateError::Bounds)
                    } else {
                        Ok(pos as usize)
                    }
                }
            }
        }
    }
}

/// The smallest recorded payload offset is no larger than any entry's.
proof fn lemma_min_file_off_le(sec: Seq<u8>, n: int, k: int)
    requires
        0 <= k < n,
    ensures
        min_file_off(sec, n) <= entry_file_off(sec, k),
    decreases n,
{
    if k < n - 1 {
        lemma_min_file_off_le(sec, n - 1, k);
    }
}

/// A found icon offset is the recorded payload offset of some entry.
proof fn lemma_first_icon_is_entry(sec: Seq<u8>, n: int)
    requires
        first_icon_file_off(sec, n) is Some,
    ensures
        exists|k: int|
            0 <= k < n && #[trigger] entry_file_off(sec, k) == first_icon_file_off(sec, n).unwrap(),
    decreases n,
{
    if n > 0 && first_icon_file_off(sec, n - 1) is Some {
        lemma_first_icon_is_entry(sec, n - 1);
    }
}

/// Whether the exec accumulator for the first icon matches the model.
spec fn icon_state_matches(icon: Option<u32>, model: Option<int>) -> bool {
    match (icon, model) {
        (Option::None, Option::None) => true,
        (Option::Some(a), Option::Some(b)) => a as int == b,
        _ => false,
    }
}

/// Walks the resource tree of `sec` and computes the section-relative offset
/// of the counter window: the first icon-typed entry's recorded payload
/// offset, corrected by the reposition delta, plus the fixed counter
/// distance. Fails with `Bounds` when a record falls outside `sec` or an
/// offset computation leaves the machine's range, and with `IconMissing`
/// when no icon-typed entry exists (in particular when there are no entries).
pub fn find_counter_offset(sec: &[u8]) -> (r: Result<usize, LocateError>)
    ensures
        r == spec_locate(sec@),
{
    let n: usize = sec.len();
    if n < 16 {
        return Err(LocateError::Bounds);
    }
    let named = read_u16_at(sec, 12);
    let ids = read_u16_at(sec, 14);
    let total: usize = named as usize + ids as usize;
    if total == 0 {
        return Err(LocateError::IconMissing);
    }
    let mut maxd: u16 = 0;
    let mut mind: u64 = 0x1_0000_0000;
    let mut icon: Option<u32> = None;
    let mut i: usize = 0;
    while i < total
        invariant
            sec@.len() == n,
            16 <= n,
            total == entry_total(sec@),
            0 < total <= 0x1fffe,
            0 <= i <= total,
            entries_in_bounds(sec@, i as int),
            maxd as int == max_data_off(sec@, i as int),
            mind as int == min_file_off(sec@, i as int),
            icon_state_matches(icon, first_icon_file_off(sec@, i as int)),
        decreases total - i,
    {
        let entry_off: usize = 16 + 8 * i;
        if n - 8 < entry_off {
            assert(!entry_in_bounds(sec@, i as int));
            return Err(LocateError::Bounds);
        }
        let rtype = read_u16_at(sec, entry_off);
        let name_off = read_u16_at(sec, entry_off + 4) as usize;
        if n < 24 || n - 24 < name_off {
            assert(!entry_in_bounds(sec@, i as int));
            return Err(LocateError::Bounds);
        }
        let lang_off = read_u16_at(sec, name_off + 20) as usize;
        if n - 24 < lang_off {
            assert(!entry_in_bounds(sec@, i as int));
            return Err(LocateError::Bounds);
        }
        let data_off16 = read_u16_at(sec, lang_off + 20);
        let data_off = data_off16 as usize;
        if n - 16 < data_off {
            assert(!entry_in_bounds(sec@, i as int));
            return Err(LocateError::Bounds);
        }
        let file_off = read_u32_at(sec, data_off);
        if data_off16 > maxd {
            maxd = data_off16;
        }
        if (file_off as u64) < mind {
            mind = file_off as u64;
        }
        if icon.is_none() && rtype == ICON_RESOURCE_TYPE {
            icon = Some(file_off);
        }
        assert(entry_in_bounds(sec@, i as int));
        i += 1;
    }
    let repos_end: u64 = maxd as u64 + 24;
    if mind < repos_end {
        return Err(LocateError::Bounds);
    }
    let repos: u64 = mind - repos_end;
    match icon {
        None => Err(LocateError::IconMissing),
        Some(foff) => {
            proof {
                lemma_first_icon_is_entry(sec@, total as int);
                let k = choose|k: int|
                    0 <= k < total && #[trigger] entry_file_off(sec@, k)
                        == first_icon_file_off(sec@, total as int).unwrap();
                lemma_min_file_off_le(sec@, total as int, k);
            }
            let pos: u64 = foff as u64 - repos + ICON_COUNTER_POSITION as u64;
            if pos > usize::MAX as u64 {
                Err(LocateError::Bounds)
            } else {
                Ok(pos as usize)
            }
        }
    }
}

/// Law: the locator is a pure function of the section bytes, so walking the
/// same bytes any number of times yields the same outcome; in particular two
/// results of `find_counter_offset` on equal byte sequences are equal.
pub proof fn lemma_locate_idempotent(sec1: Seq<u8>, sec2: Seq<u8>)
    requires
        sec1 == sec2,
    ensures
        spec_locate(sec1) == spec_locate(sec2),
{
}

/// No icon-typed entry stands among the first `n` entries, so none is found.
proof fn lemma_first_icon_none(sec: Seq<u8>, n: int)
    requires
        forall|k: int| 0 <= k < n ==> #[trigger] entry_type(sec, k) != ICON_RESOURCE_TYPE,
    ensures
        first_icon_file_off(sec, n) is None,
    decreases n,
{
    if n > 0 {
        lemma_first_icon_none(sec, n - 1);
    }
}

/// Law: a resource tree with zero icon-typed entries never yields a counter
/// offset; when its records lie in bounds and the reposition delta is
/// non-negative, the failure is precisely `IconMissing`. A tree with no
/// entries at all fails with `IconMissing` as well.
pub proof fn lemma_missing_icon(sec: Seq<u8>)
    requires
        forall|k: int| 0 <= k < entry_total(sec) ==> #[trigger] entry_type(sec, k)
            != ICON_RESOURCE_TYPE,
    ensures
        spec_locate(sec) is Err,
        sec.len() >= 16 && entries_in_bounds(sec, entry_total(sec)) && reposition(
            sec,
            entry_total(sec),
        ) >= 0 ==> spec_locate(sec) == Err::<usize, LocateError>(LocateError::IconMissing),
{
    lemma_first_icon_none(sec, entry_total(sec));
}

} // verus!
