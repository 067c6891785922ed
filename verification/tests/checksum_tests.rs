use cvi_loader::checksum::checksum;

// Reference byte sequences captured from a protocol trace, with the
// checksum values the device echoed for them.
const V1: [u8; 10] = [0x03, 0x00, 0x0A, 0x00, 0x00, 0x00, 0x00, 0xFF, 0xCA, 0x27];
const V2: [u8; 12] = [
    0x00, 0x00, 0x0C, 0x00, 0x00, 0x00, 0x00, 0x00, 0x31, 0x4E, 0xD2, 0x92,
];

#[test]
fn checksum_golden_vector_one() {
    assert_eq!(checksum(&V1), 0x42CA);
}

#[test]
fn checksum_golden_vector_two() {
    assert_eq!(checksum(&V2), 0x6B31);
}

#[test]
fn checksum_standard_check_value() {
    // The standard check input for this CRC variant.
    let digits: Vec<u8> = vec![0x31, 0x32, 0x33, 0x34, 0x35, 0x36, 0x37, 0x38, 0x39];
    assert_eq!(checksum(&digits), 0x31C3);
}

#[test]
fn checksum_deterministic_across_calls() {
    let buf: Vec<u8> = (0u16..1024).map(|i| (i % 251) as u8).collect();
    let first = checksum(&buf);
    let second = checksum(&buf);
    let third = checksum(&buf.clone());
    assert_eq!(first, second);
    assert_eq!(first, third);
}

#[test]
fn checksum_depends_on_input() {
    let a: Vec<u8> = vec![1, 2, 3, 4];
    let mut b = a.clone();
    b[2] ^= 0x40;
    assert_ne!(checksum(&a), checksum(&b));
}
