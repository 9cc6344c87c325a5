//! End-to-end tests on a synthetic minimal executable image: a 64-bit PE
//! container holding one ".rsrc" section whose resource tree points at an
//! icon payload with a counter window 256 bytes past its base.

use run_counter::image::{
    increment_image, run_count_in_image, write_count_in_image, ImageError,
};

fn put_u16(img: &mut [u8], off: usize, x: u16) {
    img[off..off + 2].copy_from_slice(&x.to_le_bytes());
}

fn put_u32(img: &mut [u8], off: usize, x: u32) {
    img[off..off + 4].copy_from_slice(&x.to_le_bytes());
}

/// One resource section as in the locator tests: one entry of type `rtype`,
/// counter window at section-relative offset 352, initialized to `counter`.
fn synthetic_section(rtype: u16, counter: u64) -> Vec<u8> {
    let mut sec = vec![0u8; 512];
    put_u16(&mut sec, 14, 1);
    put_u16(&mut sec, 16, rtype);
    put_u16(&mut sec, 20, 24);
    put_u16(&mut sec, 44, 48);
    put_u16(&mut sec, 68, 72);
    put_u32(&mut sec, 72, 96);
    put_u32(&mut sec, 76, 100);
    sec[352..360].copy_from_slice(&counter.to_le_bytes());
    sec
}

/// A minimal 64-bit PE image: DOS header, NT headers with a 240-byte
/// optional header, one section header, and the section's raw data at file
/// offset 512.
fn build_image(section_name: &[u8; 8], section: &[u8]) -> Vec<u8> {
    let mut img = vec![0u8; 512 + section.len()];
    img[0] = b'M';
    img[1] = b'Z';
    put_u32(&mut img, 0x3c, 0x40); // offset of the NT headers
    img[0x40] = b'P';
    img[0x41] = b'E';
    put_u16(&mut img, 0x44, 0x8664); // machine: x86-64
    put_u16(&mut img, 0x46, 1); // one section
    put_u16(&mut img, 0x54, 240); // size of the optional header
    put_u16(&mut img, 0x56, 0x0022); // characteristics: executable image
    put_u16(&mut img, 0x58, 0x20b); // optional header magic: PE32+
    put_u32(&mut img, 0x58 + 108, 16); // number of data directories
    let sh = 0x148; // section header
    img[sh..sh + 8].copy_from_slice(section_name);
    put_u32(&mut img, sh + 8, section.len() as u32); // virtual size
    put_u32(&mut img, sh + 12, 0x1000); // virtual address
    put_u32(&mut img, sh + 16, section.len() as u32); // size of raw data
    put_u32(&mut img, sh + 20, 512); // pointer to raw data
    img[512..512 + section.len()].copy_from_slice(section);
    img
}

fn icon_image(counter: u64) -> Vec<u8> {
    build_image(b".rsrc\0\0\0", &synthetic_section(3, counter))
}

#[test]
fn reads_the_embedded_counter() {
    let img = icon_image(7);
    assert_eq!(run_count_in_image(&img), Ok(7));
}

#[test]
fn monotonic_increment_end_to_end() {
    let k: u64 = 5;
    let n: u64 = 4;
    let mut img = icon_image(k);
    for step in 0..n {
        let (next, prev) = increment_image(&img).expect("cycle must succeed");
        assert_eq!(prev, k + step);
        img = next;
    }
    assert_eq!(run_count_in_image(&img), Ok(k + n));
}

#[test]
fn write_then_read_round_trip() {
    let mut img = icon_image(0);
    assert_eq!(write_count_in_image(&mut img, 0xdead_beef_0badu64), Ok(()));
    assert_eq!(run_count_in_image(&img), Ok(0xdead_beef_0badu64));
}

#[test]
fn wraps_past_the_64_bit_boundary() {
    let img = icon_image(u64::MAX);
    let (next, prev) = increment_image(&img).expect("cycle must succeed");
    assert_eq!(prev, u64::MAX);
    assert_eq!(run_count_in_image(&next), Ok(0));
}

#[test]
fn missing_icon_mutates_nothing() {
    let img = build_image(b".rsrc\0\0\0", &synthetic_section(4, 11));
    assert_eq!(run_count_in_image(&img), Err(ImageError::IconMissing));
    let mut copy = img.clone();
    assert_eq!(
        write_count_in_image(&mut copy, 99),
        Err(ImageError::IconMissing)
    );
    assert_eq!(copy, img, "a failed update must leave the bytes unchanged");
}

#[test]
fn missing_section_mutates_nothing() {
    let img = build_image(b".data\0\0\0", &synthetic_section(3, 11));
    assert_eq!(run_count_in_image(&img), Err(ImageError::SectionMissing));
    let mut copy = img.clone();
    assert_eq!(
        write_count_in_image(&mut copy, 99),
        Err(ImageError::SectionMissing)
    );
    assert_eq!(copy, img, "a failed update must leave the bytes unchanged");
}

#[test]
fn section_range_outside_image_fails() {
    let mut img = icon_image(0);
    // point the section's raw data past the end of the file
    put_u32(&mut img, 0x148 + 20, 4096);
    assert_eq!(run_count_in_image(&img), Err(ImageError::Bounds));
    let mut copy = img.clone();
    assert_eq!(write_count_in_image(&mut copy, 99), Err(ImageError::Bounds));
    assert_eq!(copy, img, "a failed update must leave the bytes unchanged");
}

#[test]
fn malformed_container_fails() {
    let img = vec![0u8; 1024];
    assert_eq!(run_count_in_image(&img), Err(ImageError::Malformed));
}

#[test]
fn increment_leaves_the_source_image_unchanged() {
    let img = icon_image(3);
    let before = img.clone();
    let _ = increment_image(&img).expect("cycle must succeed");
    assert_eq!(img, before);
}
