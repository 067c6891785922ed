use cvi_loader::checksum::checksum;
use cvi_loader::frame::{
    boot_src_sd, boot_src_usb, break_frame, build_frame, check_response, decode_header,
    flag_frame, handshake_frame, Header,
};
use cvi_loader::ProtocolError;

#[test]
fn header_serializes_big_endian() {
    let h = Header { cmd: 1, size: 4, addr: 0x0E00_0004 };
    let bytes = h.to_slice();
    assert_eq!(bytes, [0x01, 0x00, 0x0C, 0x00, 0x0E, 0x00, 0x00, 0x04]);
}

#[test]
fn header_addr_uses_low_forty_bits() {
    let h = Header { cmd: 0, size: 0, addr: 0x8394_0000 };
    let bytes = h.to_slice();
    assert_eq!(bytes, [0x00, 0x00, 0x08, 0x00, 0x83, 0x94, 0x00, 0x00]);
}

#[test]
fn handshake_frame_layout() {
    // Keep-download frame with a 2-byte body at the dummy address.
    let body = [0xAA, 0xBB];
    let f = handshake_frame(&body);
    assert_eq!(f, vec![0x03, 0x00, 0x0A, 0x00, 0x00, 0x00, 0x00, 0xFF, 0xAA, 0xBB]);
}

#[test]
fn handshake_frame_empty_body() {
    let body: [u8; 0] = [];
    let f = handshake_frame(&body);
    assert_eq!(f, vec![0x03, 0x00, 0x08, 0x00, 0x00, 0x00, 0x00, 0xFF]);
}

#[test]
fn flag_frame_layout() {
    let f = flag_frame();
    assert_eq!(
        f,
        vec![0x01, 0x00, 0x0C, 0x00, 0x0E, 0x00, 0x00, 0x04, 0x31, 0x4E, 0x47, 0x4D]
    );
}

#[test]
fn break_frame_layout() {
    let f = break_frame();
    assert_eq!(f, vec![0x02, 0x00, 0x08, 0x00, 0x00, 0x00, 0x00, 0xFF]);
}

#[test]
fn boot_src_marker_is_ascii() {
    assert_eq!(&boot_src_usb(), b"1NGM");
    assert_eq!(&boot_src_sd(), b"2NGM");
}

#[test]
fn build_frame_appends_body() {
    let body = [9u8, 8, 7];
    let f = build_frame(6, 0xFF, &body);
    assert_eq!(f[..8], [0x06, 0x00, 0x0B, 0x00, 0x00, 0x00, 0x00, 0xFF]);
    assert_eq!(f[8..], [9, 8, 7]);
}

#[test]
fn header_round_trips_through_decode() {
    let h = Header { cmd: 0x83, size: 300, addr: 0x80_8000_0000 };
    let bytes = h.to_slice();
    let d = decode_header(&bytes);
    assert_eq!(d.cmd, 0x83);
    assert_eq!(d.total_size, 308);
    assert_eq!(d.addr, 0x80_8000_0000);
}

#[test]
fn check_response_accepts_echoed_checksum() {
    let frame = [0x03, 0x00, 0x0A, 0x00, 0x00, 0x00, 0x00, 0xFF, 0xCA, 0x27];
    let cksum = checksum(&frame);
    let mut resp = [0u8; 16];
    resp[2] = (cksum >> 8) as u8;
    resp[3] = (cksum & 0xFF) as u8;
    resp[6] = 0x5A;
    assert_eq!(check_response(&frame, &resp), Ok(0x5A));
}

#[test]
fn check_response_rejects_wrong_checksum() {
    // This frame's checksum is the golden value 0x42CA, so a zeroed echo
    // field must be reported as a mismatch against exactly that value.
    let frame = [0x03, 0x00, 0x0A, 0x00, 0x00, 0x00, 0x00, 0xFF, 0xCA, 0x27];
    let resp = [0u8; 16];
    assert_eq!(
        check_response(&frame, &resp),
        Err(ProtocolError::ChecksumMismatch { expected: 0x42CA, got: 0 })
    );
}

#[test]
fn concat_joins_left_then_right() {
    let joined = cvi_loader::concat(&[1, 2], &[3, 4, 5]);
    assert_eq!(joined, vec![1, 2, 3, 4, 5]);
    let empty_left = cvi_loader::concat(&[], &[9]);
    assert_eq!(empty_left, vec![9]);
}
