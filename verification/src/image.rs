//! The image level: finds the resource section inside a full executable image
//! through the container parser, composes it with the resource tree locator
//! and the counter accessor, and computes the patched next-generation image.

use vstd::prelude::*;
use vstd::slice::slice_subrange;
use vstd::slice::slice_to_vec;
use crate::bytes::{u64_at, spliced, read_u64_at, write_u64_at};
use crate::rsrc::{LocateError, spec_locate, find_counter_offset};
use crate::counter::{wrap_inc, next_count};
use object::Object;
use object::ObjectSection;

verus! {

/// Failures of reading or updating the counter inside an image.
#[derive(Clone, Copy, Debug, PartialEq, Eq, Structural)]
pub enum ImageError {
    /// The bytes do not parse as an executable container.
    Malformed,
    /// No section named ".rsrc" with file data is present.
    SectionMissing,
    /// The resource tree holds no icon-typed entry.
    IconMissing,
    /// A computed range falls outside the image or section bytes.
    Bounds,
}

#[verifier::external_type_specification]
#[verifier::external_body]
pub struct ExObjectError(object::read::Error);

/// What the container parser yields for the image bytes: `None` when the
/// bytes are not a well-formed container, else the sections in table order,
/// each as its name bytes (absent when the name cannot be read) and its file
/// range (absent when the section holds no file data).
pub uninterp spec fn section_table_of(image: Seq<u8>) -> Option<
    Seq<(Option<Seq<u8>>, Option<(u64, u64)>)>,
>;

/// The name bytes of one listed section.
pub open spec fn name_view(o: Option<Vec<u8>>) -> Option<Seq<u8>> {
    match o {
        Option::None => None,
        Option::Some(v) => Some(v@),
    }
}

/// The section list as the model of `section_table_of` sees it.
pub open spec fn table_view(t: Seq<(Option<Vec<u8>>, Option<(u64, u64)>)>) -> Seq<
    (Option<Seq<u8>>, Option<(u64, u64)>),
> {
    t.map_values(|e: (Option<Vec<u8>>, Option<(u64, u64)>)| (name_view(e.0), e.1))
}

/// Relies on object's `File::parse` and its section iterator: each section is
/// handed out as its name bytes and its file range, in table order, and
/// parsing fails exactly when the bytes are not a well-formed container.
/// The outcome is a pure function of the image bytes, named `section_table_of`.
#[verifier::external_body]
fn parse_section_table(image: &[u8]) -> (r: Result<
    Vec<(Option<Vec<u8>>, Option<(u64, u64)>)>,
    object::read::Error,
>)
    ensures
        match r {
            Ok(t) => section_table_of(image@) == Some(table_view(t@)),
            Err(_) => section_table_of(image@) is None,
        },
{
    let parsed = object::File::parse(image)?;
    Ok(parsed
        .sections()
        .map(|s| (s.name_bytes().ok().map(<[u8]>::to_vec), s.file_range()))
        .collect())
}

/// Whether `s` is the resource section's name, ".rsrc".
pub open spec fn is_rsrc_name(s: Seq<u8>) -> bool {
    s.len() == 5 && s[0] == 46u8 && s[1] == 114u8 && s[2] == 115u8 && s[3] == 114u8 && s[4]
        == 99u8
}

/// The file range of the first section named ".rsrc", from entry `i` on:
/// `None` when no later entry bears that name, else that entry's range field.
pub open spec fn find_named_from(
    t: Seq<(Option<Seq<u8>>, Option<(u64, u64)>)>,
    i: int,
) -> Option<Option<(u64, u64)>>
    decreases t.len() - i,
{
    if i < 0 || i >= t.len() {
        None
    } else if t[i].0 is Some && is_rsrc_name(t[i].0.unwrap()) {
        Some(t[i].1)
    } else {
        find_named_from(t, i + 1)
    }
}

/// The file range recorded for the first section named ".rsrc" in the table.
pub open spec fn rsrc_range_of(t: Seq<(Option<Seq<u8>>, Option<(u64, u64)>)>) -> Option<
    Option<(u64, u64)>,
> {
    find_named_from(t, 0)
}

/// Whether `name` is ".rsrc".
fn is_rsrc(name: &Vec<u8>) -> (r: bool)
    ensures
        r == is_rsrc_name(name@),
{
    name.len() == 5 && name[0] == 46 && name[1] == 114 && name[2] == 115 && name[3] == 114
        && name[4] == 99
}

/// Scans the section list for the first entry named ".rsrc" and returns its
/// file range field; `None` when no entry bears that name.
fn find_rsrc_range(table: &Vec<(Option<Vec<u8>>, Option<(u64, u64)>)>) -> (r: Option<
    Option<(u64, u64)>,
>)
    ensures
        r == rsrc_range_of(table_view(table@)),
{
    let ghost tv = table_view(table@);
    let len: usize = table.len();
    let mut i: usize = 0;
    while i < len
        invariant
            len == table@.len(),
            tv == table_view(table@),
            0 <= i <= len,
            find_named_from(tv, 0) == find_named_from(tv, i as int),
        decreases len - i,
    {
        let entry = &table[i];
        match &entry.0 {
            Some(name) => {
                if is_rsrc(name) {
                    return Some(entry.1);
                }
            },
            None => {},
        }
        i += 1;
    }
    None
}

/// Where the counter stands in `image`: the resource section's base and size
/// and the counter window's section-relative offset, or the failure met on
/// the way there (malformed container, missing or rangeless ".rsrc" section,
/// section range outside the image, or a locator failure).
pub open spec fn spec_located(image: Seq<u8>) -> Result<(int, int, int), ImageError> {
    match section_table_of(image) {
        Option::None => Err(ImageError::Malformed),
        Option::Some(t) => match rsrc_range_of(t) {
            Option::None => Err(ImageError::SectionMissing),
            Option::Some(Option::None) => Err(ImageError::SectionMissing),
            Option::Some(Option::Some(rg)) => {
                let base = rg.0 as int;
                let size = rg.1 as int;
                if base + size > image.len() {
                    Err(ImageError::Bounds)
                } else {
                    match spec_locate(image.subrange(base, base + size)) {
                        Err(LocateError::Bounds) => Err(ImageError::Bounds),
                        Err(LocateError::IconMissing) => Err(ImageError::IconMissing),
                        Ok(pos) => Ok((base, size, pos as int)),
                    }
                }
            },
        },
    }
}

/// The counter value persisted in `image`, or the failure met locating it.
/// The window must lie inside the resource section's bytes.
pub open spec fn spec_run_count(image: Seq<u8>) -> Result<u64, ImageError> {
    match spec_located(image) {
        Err(e) => Err(e),
        Ok((base, size, pos)) => if pos + 8 > size {
            Err(ImageError::Bounds)
        } else {
            Ok(u64_at(image.subrange(base, base + size), pos))
        },
    }
}

/// The absolute offset at which a new counter value is written into `image`,
/// or the failure met locating it. The window must lie inside the image.
pub open spec fn spec_write_pos(image: Seq<u8>) -> Result<usize, ImageError> {
    match spec_located(image) {
        Err(e) => Err(e),
        Ok((base, size, pos)) => if base + pos + 8 > image.len() {
            Err(ImageError::Bounds)
        } else {
            Ok((base + pos) as usize)
        },
    }
}

/// Reads the invocation counter out of a full executable image: parses the
/// container, walks the resource tree of the ".rsrc" section, and decodes
/// the eight-byte window as a little-endian `u64`.
pub fn run_count_in_image(image: &[u8]) -> (r: Result<u64, ImageError>)
    ensures
        r == spec_run_count(image@),
{
    let table = match parse_section_table(image) {
        Ok(t) => t,
        Err(_) => {
            return Err(ImageError::Malformed);
        },
    };
    let range = match find_rsrc_range(&table) {
        None => {
            return Err(ImageError::SectionMissing);
        },
        Some(None) => {
            return Err(ImageError::SectionMissing);
        },
        Some(Some(rg)) => rg,
    };
    let n: usize = image.len();
    if range.1 > n as u64 || range.0 > n as u64 - range.1 {
        return Err(ImageError::Bounds);
    }
    let base: usize = range.0 as usize;
    let size: usize = range.1 as usize;
    let sec = slice_subrange(image, base, base + size);
    let pos: usize = match find_counter_offset(sec) {
        Err(LocateError::Bounds) => {
            return Err(ImageError::Bounds);
        },
        Err(LocateError::IconMissing) => {
            return Err(ImageError::IconMissing);
        },
        Ok(p) => p,
    };
    if size < 8 || pos > size - 8 {
        return Err(ImageError::Bounds);
    }
    Ok(read_u64_at(sec, pos))
}

/// Computes the absolute offset of the counter window for a coming write:
/// the same walk as the read path, with the window checked against the whole
/// image.
pub fn counter_write_pos(image: &[u8]) -> (r: Result<usize, ImageError>)
    ensures
        r == spec_write_pos(image@),
{
    let table = match parse_section_table(image) {
        Ok(t) => t,
        Err(_) => {
            return Err(ImageError::Malformed);
        },
    };
    let range = match find_rsrc_range(&table) {
        None => {
            return Err(ImageError::SectionMissing);
        },
        Some(None) => {
            return Err(ImageError::SectionMissing);
        },
        Some(Some(rg)) => rg,
    };
    let n: usize = image.len();
    if range.1 > n as u64 || range.0 > n as u64 - range.1 {
        return Err(ImageError::Bounds);
    }
    let base: usize = range.0 as usize;
    let size: usize = range.1 as usize;
    let sec = slice_subrange(image, base, base + size);
    let pos: usize = match find_counter_offset(sec) {
        Err(LocateError::Bounds) => {
            return Err(ImageError::Bounds);
        },
        Err(LocateError::IconMissing) => {
            return Err(ImageError::IconMissing);
        },
        Ok(p) => p,
    };
    if pos as u64 > n as u64 - base as u64 || 8 > n as u64 - base as u64 - pos as u64 {
        return Err(ImageError::Bounds);
    }
    Ok(base + pos)
}

/// Writes `value` as the counter of the image held in `image`: on success the
/// eight-byte window holds the little-endian bytes of `value` and every other
/// byte keeps its value; on failure the image bytes are unchanged.
pub fn write_count_in_image(image: &mut Vec<u8>, value: u64) -> (r: Result<(), ImageError>)
    ensures
        match spec_write_pos(old(image)@) {
            Err(e) => r == Err::<(), ImageError>(e) && final(image)@ == old(image)@,
            Ok(p) => {
                &&& r == Ok::<(), ImageError>(())
                &&& final(image)@ == spliced(old(image)@, p as int, value)
                &&& final(image)@.len() == old(image)@.len()
                &&& u64_at(final(image)@, p as int) == value
            },
        },
{
    let pos: usize = match counter_write_pos(image.as_slice()) {
        Ok(p) => p,
        Err(e) => {
            return Err(e);
        },
    };
    write_u64_at(image, pos, value);
    Ok(())
}

/// Computes the next-generation image: reads the counter `k` out of `image`,
/// and returns a patched copy whose counter window holds `k` stepped by one
/// (wrapping at the 64-bit boundary), together with `k` itself. The given
/// image bytes are never changed; any failure yields only the error.
pub fn increment_image(image: &Vec<u8>) -> (r: Result<(Vec<u8>, u64), ImageError>)
    ensures
        match spec_run_count(image@) {
            Err(e) => r == Err::<(Vec<u8>, u64), ImageError>(e),
            Ok(k) => {
                &&& r is Ok
                &&& r.unwrap().1 == k
                &&& spec_write_pos(image@) is Ok
                &&& r.unwrap().0@ == spliced(image@, spec_write_pos(image@).unwrap() as int, wrap_inc(k))
                &&& u64_at(r.unwrap().0@, spec_write_pos(image@).unwrap() as int) == wrap_inc(k)
            },
        },
{
    let prev: u64 = match run_count_in_image(image.as_slice()) {
        Ok(k) => k,
        Err(e) => {
            return Err(e);
        },
    };
    proof {
        assert(spec_write_pos(image@) is Ok);
    }
    let mut copy = slice_to_vec(image.as_slice());
    let next = next_count(prev);
    match write_count_in_image(&mut copy, next) {
        Ok(_) => Ok((copy, prev)),
        Err(e) => Err(e),
    }
}

} // verus!
