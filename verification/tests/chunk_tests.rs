use cvi_loader::chunk::file_frames;

#[test]
fn chunking_partial_tail() {
    // 600 = 256 * 2 + 88: three chunks, the last of 88 bytes.
    let payload: Vec<u8> = (0u32..600).map(|i| (i % 256) as u8).collect();
    let frames = file_frames(&payload);
    assert_eq!(frames.len(), 3);

    // Chunk 0: 256-byte body, total size 264 = 0x108, destination offset 0.
    assert_eq!(frames[0][..8], [0x00, 0x01, 0x08, 0x00, 0x00, 0x00, 0x00, 0x00]);
    assert_eq!(frames[0][8..], payload[..256]);

    // Chunk 1: destination offset 256 = 0x100.
    assert_eq!(frames[1][..8], [0x00, 0x01, 0x08, 0x00, 0x00, 0x00, 0x01, 0x00]);
    assert_eq!(frames[1][8..], payload[256..512]);

    // Chunk 2: 88-byte body, total size 96 = 0x60, offset 512 = 0x200.
    assert_eq!(frames[2][..8], [0x00, 0x00, 0x60, 0x00, 0x00, 0x00, 0x02, 0x00]);
    assert_eq!(frames[2][8..], payload[512..]);
}

#[test]
fn chunking_exact_multiple_has_no_empty_tail() {
    let payload = vec![7u8; 512];
    let frames = file_frames(&payload);
    assert_eq!(frames.len(), 2);
    assert_eq!(frames[0].len(), 264);
    assert_eq!(frames[1].len(), 264);
}

#[test]
fn chunking_short_payload_is_one_chunk() {
    let payload = vec![1u8, 2, 3, 4, 5];
    let frames = file_frames(&payload);
    assert_eq!(frames.len(), 1);
    assert_eq!(frames[0][..8], [0x00, 0x00, 0x0D, 0x00, 0x00, 0x00, 0x00, 0x00]);
    assert_eq!(frames[0][8..], [1, 2, 3, 4, 5]);
}

#[test]
fn chunking_empty_payload_sends_nothing() {
    let payload: Vec<u8> = Vec::new();
    let frames = file_frames(&payload);
    assert_eq!(frames.len(), 0);
}

#[test]
fn chunking_single_full_chunk() {
    let payload = vec![0xEEu8; 256];
    let frames = file_frames(&payload);
    assert_eq!(frames.len(), 1);
    assert_eq!(frames[0].len(), 264);
}
