use cvi_loader::boot_header::{
    aligned_size, build_boot_header, CVITekHeader, Param1, HEADER_EXPORT_LEN,
    PARAM1_CHECKSUM_SPAN,
};
use cvi_loader::checksum::checksum;

#[test]
fn boot_header_is_always_export_length() {
    assert_eq!(build_boot_header(&[]).len(), HEADER_EXPORT_LEN);
    assert_eq!(build_boot_header(&[1, 2, 3]).len(), HEADER_EXPORT_LEN);
    let big = vec![0xABu8; 70000];
    assert_eq!(build_boot_header(&big).len(), HEADER_EXPORT_LEN);
}

#[test]
fn boot_header_is_deterministic() {
    let payload = vec![5u8; 1000];
    let first = build_boot_header(&payload);
    let second = build_boot_header(&payload);
    assert_eq!(first, second);
}

#[test]
fn boot_header_changes_with_payload_but_keeps_length() {
    let payload = vec![5u8; 1000];
    let mut other = payload.clone();
    other[123] ^= 1;
    let a = build_boot_header(&payload);
    let b = build_boot_header(&other);
    assert_eq!(a.len(), b.len());
    // The embedded BL2 checksum field must differ between the two.
    assert_ne!(a[212..216], b[212..216]);
}

#[test]
fn boot_header_magic_and_pad() {
    let record = build_boot_header(&[1, 2, 3]);
    assert_eq!(&record[..8], b"CVBL01\n\0");
    assert_eq!(record[8..12], [0, 0, 0, 0]);
}

#[test]
fn boot_header_embeds_payload_checksum_and_size() {
    let payload = [1u8, 2, 3];
    let record = build_boot_header(&payload);
    let ck = checksum(&payload);
    assert_eq!(
        record[212..216],
        [(ck & 0xFF) as u8, (ck >> 8) as u8, 0xCA, 0xFE]
    );
    assert_eq!(record[216..220], [3, 0, 0, 0]);
}

#[test]
fn boot_header_stores_block_checksum_over_covered_span() {
    let record = build_boot_header(&[9u8; 300]);
    // The stored value at offsets 12..16 is the checksum of the parameter
    // block's covered bytes, which start right after the 16-byte envelope.
    let block_ck = checksum(&record[16..16 + PARAM1_CHECKSUM_SPAN]);
    assert_eq!(
        record[12..16],
        [(block_ck & 0xFF) as u8, (block_ck >> 8) as u8, 0xCA, 0xFE]
    );
}

#[test]
fn boot_header_fixed_parameter_fields() {
    let record = build_boot_header(&[0u8; 4]);
    // Configuration size 0x2F8, little-endian, at parameter offset 172.
    assert_eq!(record[188..192], [0xF8, 0x02, 0x00, 0x00]);
    // BLCP checksum placeholder.
    assert_eq!(record[192..196], [0x00, 0x00, 0xCA, 0xFE]);
    // BLCP run address 0x0520_0200, little-endian.
    assert_eq!(record[200..204], [0x00, 0x02, 0x20, 0x05]);
    // Second parameter load address 0x2A00, little-endian.
    assert_eq!(record[224..228], [0x00, 0x2A, 0x00, 0x00]);
    // NOR descriptor placeholder is all ones.
    assert!(record[144..180].iter().all(|b| *b == 0xFF));
    // Key and signature slots stay zero.
    assert!(record[992..1024].iter().all(|b| *b == 0));
}

#[test]
fn param1_checksum_matches_serialized_prefix() {
    let p = Param1::default();
    let bytes = p.to_slice();
    assert_eq!(bytes.len(), HEADER_EXPORT_LEN);
    assert_eq!(p.checksum(), checksum(&bytes[..PARAM1_CHECKSUM_SPAN]));
}

#[test]
fn cvitek_header_default_serializes_to_export_length() {
    let h = CVITekHeader::default();
    let bytes = h.to_slice();
    assert_eq!(bytes.len(), HEADER_EXPORT_LEN);
    assert_eq!(&bytes[..8], b"CVBL01\n\0");
}

#[test]
fn aligned_size_rounds_up_to_image_alignment() {
    assert_eq!(aligned_size(0), 0);
    assert_eq!(aligned_size(1), 512);
    assert_eq!(aligned_size(511), 512);
    assert_eq!(aligned_size(512), 512);
    assert_eq!(aligned_size(513), 1024);
}
