//! Tests for the resource tree locator on synthetic section bytes.

use run_counter::rsrc::{find_counter_offset, LocateError};

/// Builds a 512-byte resource section holding one top-level entry of the
/// given resource type. The directory chain is laid out as: header at 0,
/// type entry at 16, Name directory at 24, Language directory at 48, Data
/// entry at 72. The Data entry records payload offset 96 and size 100, so
/// the reposition delta is `96 - (72 + 24) = 0` and an icon-typed entry puts
/// the counter window at `96 + 256 = 352`.
fn synthetic_section(rtype: u16) -> Vec<u8> {
    let mut sec = vec![0u8; 512];
    // header: no named entries, one id-keyed entry
    sec[12..14].copy_from_slice(&0u16.to_le_bytes());
    sec[14..16].copy_from_slice(&1u16.to_le_bytes());
    // type entry: resource type, flag, Name-directory offset
    sec[16..18].copy_from_slice(&rtype.to_le_bytes());
    sec[20..22].copy_from_slice(&24u16.to_le_bytes());
    // Name directory: Language-directory offset at its byte 20
    sec[44..46].copy_from_slice(&48u16.to_le_bytes());
    // Language directory: Data-entry offset at its byte 20
    sec[68..70].copy_from_slice(&72u16.to_le_bytes());
    // Data entry: recorded payload offset and size
    sec[72..76].copy_from_slice(&96u32.to_le_bytes());
    sec[76..80].copy_from_slice(&100u32.to_le_bytes());
    sec
}

#[test]
fn icon_offset_exact() {
    let sec = synthetic_section(3);
    assert_eq!(find_counter_offset(&sec), Ok(352));
}

#[test]
fn idempotent_parse() {
    let sec = synthetic_section(3);
    let first = find_counter_offset(&sec);
    let second = find_counter_offset(&sec);
    assert_eq!(first, second);
    assert_eq!(first, Ok(352));
}

#[test]
fn missing_icon_fails() {
    let sec = synthetic_section(4);
    assert_eq!(find_counter_offset(&sec), Err(LocateError::IconMissing));
}

#[test]
fn empty_tree_fails() {
    // zero named and zero id-keyed entries: no icon entry can exist
    let sec = vec![0u8; 512];
    assert_eq!(find_counter_offset(&sec), Err(LocateError::IconMissing));
}

#[test]
fn short_section_fails() {
    let sec = vec![0u8; 15];
    assert_eq!(find_counter_offset(&sec), Err(LocateError::Bounds));
}

#[test]
fn out_of_range_entry_fails() {
    let mut sec = synthetic_section(3);
    // point the type entry's Name directory past the section's end
    sec[20..22].copy_from_slice(&600u16.to_le_bytes());
    assert_eq!(find_counter_offset(&sec), Err(LocateError::Bounds));
}

#[test]
fn negative_reposition_fails() {
    let mut sec = synthetic_section(3);
    // record a payload offset smaller than the end of the directory chain
    sec[72..76].copy_from_slice(&10u32.to_le_bytes());
    assert_eq!(find_counter_offset(&sec), Err(LocateError::Bounds));
}
