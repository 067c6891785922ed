//! The binary frame format of the ROM loader's USB protocol: an 8-byte
//! command header followed by a body, answered by a fixed 16-byte response
//! that echoes the checksum of the frame just sent.
use vstd::prelude::*;
use crate::checksum::{checksum, crc16_xmodem};
use crate::concat;
use crate::ProtocolError;

verus! {

pub const HEADER_SIZE: usize = 8;
pub const RESPONSE_SIZE: usize = 16;
pub const CHUNK_SIZE: usize = 256;

// ROM USB commands.
pub const CVI_USB_TX_DATA_TO_RAM: u8 = 0;
pub const CVI_USB_TX_FLAG: u8 = 1;
// Common commands.
pub const CV_USB_BREAK: u8 = 2;
pub const CV_USB_KEEP_DL: u8 = 3;
pub const CV_USB_UBREAK: u8 = 4;
pub const CV_USB_PRG_CMD: u8 = 6;
pub const CVI_USB_REBOOT: u8 = 22;
pub const CVI_USB_PROGRAM: u8 = 0x83;

// Device memory addresses.
pub const DUMMY_ADDR: u64 = 0xFF;
pub const EFUSE_BASE: u64 = 0x0E00_0000;
pub const BOOT_SRC_ADDR: u64 = EFUSE_BASE + 0x0004;
pub const DDR_FIP_ADDR: u64 = 0x8080_0000;
pub const IMG_ADDR: u64 = 0x8394_0000;

/// The 4-byte marker body selecting USB as the next boot source.
pub open spec fn boot_src_usb_bytes() -> Seq<u8> {
    seq![0x31u8, 0x4E, 0x47, 0x4D]
}

/// The 4-byte marker body selecting SD as the next boot source.
pub open spec fn boot_src_sd_bytes() -> Seq<u8> {
    seq![0x32u8, 0x4E, 0x47, 0x4D]
}

/// Marker body selecting USB as the next boot source.
pub fn boot_src_usb() -> (r: [u8; 4])
    ensures
        r@ == boot_src_usb_bytes(),
{
    let r = [0x31u8, 0x4E, 0x47, 0x4D];
    assert(r@ =~= boot_src_usb_bytes());
    r
}

/// Marker body selecting SD as the next boot source.
pub fn boot_src_sd() -> (r: [u8; 4])
    ensures
        r@ == boot_src_sd_bytes(),
{
    let r = [0x32u8, 0x4E, 0x47, 0x4D];
    assert(r@ =~= boot_src_sd_bytes());
    r
}

// Offsets into the 16-byte response buffer.
pub const RSP_CRC16_HI_OFFSET: usize = 2;
pub const RSP_CRC16_LO_OFFSET: usize = 3;
pub const RSP_TOKEN_OFFSET: usize = 6;

/// A command header before serialization. `size` is the body length; the
/// wire form adds the header's own 8 bytes to it.
#[derive(Clone, Copy, Debug)]
pub struct Header {
    pub cmd: u8,
    pub size: u16,
    pub addr: u64,
}

/// The 8 wire bytes of a header: command, then `body_len + 8` big-endian in
/// two bytes, then the low 40 bits of the address big-endian in five bytes.
pub open spec fn header_bytes(cmd: u8, body_len: u16, addr: u64) -> Seq<u8> {
    let total = body_len + HEADER_SIZE;
    seq![
        cmd,
        ((total / 0x100) % 0x100) as u8,
        (total % 0x100) as u8,
        ((addr / 0x1_0000_0000) % 0x100) as u8,
        ((addr / 0x100_0000) % 0x100) as u8,
        ((addr / 0x1_0000) % 0x100) as u8,
        ((addr / 0x100) % 0x100) as u8,
        (addr % 0x100) as u8,
    ]
}

impl Header {
    /// Serializes the header into its 8 wire bytes.
    pub fn to_slice(&self) -> (r: [u8; HEADER_SIZE])
        requires
            self.size + HEADER_SIZE <= u16::MAX,
        ensures
            r@ == header_bytes(self.cmd, self.size, self.addr),
    {
        let sz: u16 = self.size + HEADER_SIZE as u16;
        let l1: u8 = (sz / 0x100) as u8;
        let l0: u8 = (sz % 0x100) as u8;
        let a4: u8 = ((self.addr / 0x1_0000_0000) % 0x100) as u8;
        let a3: u8 = ((self.addr / 0x100_0000) % 0x100) as u8;
        let a2: u8 = ((self.addr / 0x1_0000) % 0x100) as u8;
        let a1: u8 = ((self.addr / 0x100) % 0x100) as u8;
        let a0: u8 = (self.addr % 0x100) as u8;
        let r = [self.cmd, l1, l0, a4, a3, a2, a1, a0];
        assert(r@ =~= header_bytes(self.cmd, self.size, self.addr));
        r
    }
}

/// Builds a full frame: serialized header followed by the body.
pub fn build_frame(cmd: u8, addr: u64, body: &[u8]) -> (r: Vec<u8>)
    requires
        body@.len() + HEADER_SIZE <= u16::MAX,
    ensures
        r@ == header_bytes(cmd, body@.len() as u16, addr) + body@,
{
    let h = Header { cmd, size: body.len() as u16, addr };
    let hs = h.to_slice();
    concat(hs.as_slice(), body)
}

/// The fields read back from 8 header bytes: command, total size
/// (header plus body), and the 40-bit address.
pub struct DecodedHeader {
    pub cmd: u8,
    pub total_size: u16,
    pub addr: u64,
}

/// Reads the command, total size and address back out of 8 header bytes.
pub fn decode_header(h: &[u8]) -> (r: DecodedHeader)
    requires
        h@.len() == HEADER_SIZE,
    ensures
        r.cmd == h@[0],
        r.total_size == (h@[1] as int) * 0x100 + h@[2],
        r.addr == (h@[3] as int) * 0x1_0000_0000 + (h@[4] as int) * 0x100_0000
            + (h@[5] as int) * 0x1_0000 + (h@[6] as int) * 0x100 + h@[7],
{
    let total_size: u16 = (h[1] as u16) * 0x100 + (h[2] as u16);
    let addr: u64 = (h[3] as u64) * 0x1_0000_0000 + (h[4] as u64) * 0x100_0000
        + (h[5] as u64) * 0x1_0000 + (h[6] as u64) * 0x100 + (h[7] as u64);
    DecodedHeader { cmd: h[0], total_size, addr }
}

/// Round trip of the header codec: for any command, body length and
/// address below 2^40, decoding the 8 bytes that `header_bytes` yields
/// recovers the command, the body length as `total_size - 8`, and the
/// address.
pub proof fn lemma_header_round_trip(cmd: u8, body_len: u16, addr: u64)
    requires
        body_len + HEADER_SIZE <= u16::MAX,
        addr < 0x100_0000_0000,
    ensures
        ({
            let h = header_bytes(cmd, body_len, addr);
            h.len() == HEADER_SIZE
                && h[0] == cmd
                && (h[1] as int) * 0x100 + h[2] == body_len + HEADER_SIZE
                && (h[3] as int) * 0x1_0000_0000 + (h[4] as int) * 0x100_0000
                    + (h[5] as int) * 0x1_0000 + (h[6] as int) * 0x100 + h[7] == addr
        }),
{
    let t: u64 = (body_len + HEADER_SIZE) as u64;
    assert(((t / 0x100) % 0x100) * 0x100 + t % 0x100 == t) by (bit_vector)
        requires
            t <= 0xFFFF,
    ;
    let a: u64 = addr;
    assert(((a / 0x1_0000_0000) % 0x100) * 0x1_0000_0000 + ((a / 0x100_0000) % 0x100) * 0x100_0000
        + ((a / 0x1_0000) % 0x100) * 0x1_0000 + ((a / 0x100) % 0x100) * 0x100 + a % 0x100
        == a) by (bit_vector)
        requires
            a < 0x100_0000_0000,
    ;
}

/// The checksum echoed by the device in a response buffer: big-endian in
/// the two bytes at the checksum offsets.
pub open spec fn echoed_checksum(resp: Seq<u8>) -> u16 {
    ((resp[RSP_CRC16_HI_OFFSET as int] as int) * 0x100 + resp[RSP_CRC16_LO_OFFSET as int]) as u16
}

/// Validates a 16-byte response against the frame that was sent: the echoed
/// checksum must equal the checksum of the sent bytes. On match, returns
/// the opaque token; on mismatch, reports both values.
pub fn check_response(data: &[u8], resp: &[u8]) -> (r: Result<u8, ProtocolError>)
    requires
        resp@.len() == RESPONSE_SIZE,
    ensures
        crc16_xmodem(data@) == echoed_checksum(resp@)
            ==> r == Ok::<u8, ProtocolError>(resp@[RSP_TOKEN_OFFSET as int]),
        crc16_xmodem(data@) != echoed_checksum(resp@)
            ==> r == Err::<u8, ProtocolError>(ProtocolError::ChecksumMismatch {
                expected: crc16_xmodem(data@),
                got: echoed_checksum(resp@),
            }),
{
    let crc_hi = resp[RSP_CRC16_HI_OFFSET];
    let crc_lo = resp[RSP_CRC16_LO_OFFSET];
    let rsp_checksum: u16 = (crc_hi as u16) * 0x100 + (crc_lo as u16);
    let exp_checksum = checksum(data);
    if exp_checksum != rsp_checksum {
        Err(ProtocolError::ChecksumMismatch { expected: exp_checksum, got: rsp_checksum })
    } else {
        Ok(resp[RSP_TOKEN_OFFSET])
    }
}

/// Builds the "keep-download" handshake frame: it instructs the ROM loader
/// to remain in download mode rather than auto-booting. The body blob is
/// supplied by the caller; the address is the dummy address.
pub fn handshake_frame(body: &[u8]) -> (r: Vec<u8>)
    requires
        body@.len() + HEADER_SIZE <= u16::MAX,
    ensures
        r@ == header_bytes(CV_USB_KEEP_DL, body@.len() as u16, DUMMY_ADDR) + body@,
{
    build_frame(CV_USB_KEEP_DL, DUMMY_ADDR, body)
}

/// Builds the boot-source flag frame: the USB marker written to its fixed
/// device-memory address.
pub fn flag_frame() -> (r: Vec<u8>)
    ensures
        r@ == header_bytes(CVI_USB_TX_FLAG, 4, BOOT_SRC_ADDR) + boot_src_usb_bytes(),
{
    let marker = boot_src_usb();
    build_frame(CVI_USB_TX_FLAG, BOOT_SRC_ADDR, marker.as_slice())
}

/// Builds the break frame: an empty body at the dummy address, signalling
/// the end of a transfer phase.
pub fn break_frame() -> (r: Vec<u8>)
    ensures
        r@ == header_bytes(CV_USB_BREAK, 0, DUMMY_ADDR),
{
    let h = Header { cmd: CV_USB_BREAK, size: 0, addr: DUMMY_ADDR };
    let hs = h.to_slice();
    let mut r: Vec<u8> = Vec::new();
    let mut i: usize = 0;
    while i < hs.len()
        invariant
            i <= hs@.len(),
            hs@ == header_bytes(CV_USB_BREAK, 0, DUMMY_ADDR),
            r@ == hs@.subrange(0, i as int),
        decreases hs@.len() - i,
    {
        r.push(hs[i]);
        i = i + 1;
    }
    assert(r@ =~= hs@);
    r
}

/// Byte-exact layout of the handshake frame's header: for a body of length
/// `body_len`, the 8 header bytes are the keep-download command, the two
/// big-endian bytes of `body_len + 8`, four zero address bytes, and the
/// dummy address byte.
pub proof fn lemma_handshake_header_layout(body_len: u16)
    requires
        body_len + HEADER_SIZE <= u16::MAX,
    ensures
        header_bytes(CV_USB_KEEP_DL, body_len, DUMMY_ADDR) =~= seq![
            CV_USB_KEEP_DL,
            (((body_len + HEADER_SIZE) / 0x100) % 0x100) as u8,
            ((body_len + HEADER_SIZE) % 0x100) as u8,
            0u8,
            0u8,
            0u8,
            0u8,
            0xFFu8,
        ],
{
}

} // verus!

