//! The fixed-layout boot descriptor the ROM loader consumes before it
//! accepts the main payload: an outer envelope (magic, pad, checksum
//! sentinel) around the parameter block, serialized field by field into an
//! exact 4080-byte buffer.
use vstd::prelude::*;
use vstd::slice::slice_subrange;
use crate::checksum::{checksum, crc16_xmodem};

verus! {

/// Length of the exported boot header record: 4096 minus a 16-byte trailer
/// the ROM loader does not require at transfer time.
pub const HEADER_EXPORT_LEN: usize = 4096 - 16;
/// The parameter block's checksum covers its first 2032 bytes.
pub const PARAM1_CHECKSUM_SPAN: usize = 2048 - 16;
/// Payload images are staged in multiples of this alignment.
pub const IMG_ALIGN: usize = 512;

/// A sequence of `n` zero bytes.
pub open spec fn zeroes_seq(n: nat) -> Seq<u8> {
    Seq::new(n, |i: int| 0u8)
}

/// A sequence of `n` 0xFF bytes.
pub open spec fn ones_seq(n: nat) -> Seq<u8> {
    Seq::new(n, |i: int| 0xFFu8)
}

/// The four little-endian bytes of a 32-bit value.
pub open spec fn u32_le_bytes(x: u32) -> Seq<u8> {
    seq![
        (x % 0x100) as u8,
        ((x / 0x100) % 0x100) as u8,
        ((x / 0x1_0000) % 0x100) as u8,
        ((x / 0x100_0000) % 0x100) as u8,
    ]
}

/// A stored checksum field: the 16-bit checksum little-endian, then the
/// fixed two-byte sentinel.
pub open spec fn cksum_sentinel_bytes(c: u16) -> Seq<u8> {
    seq![(c % 0x100) as u8, ((c / 0x100) % 0x100) as u8, 0xCAu8, 0xFEu8]
}

/// The 8-byte magic identifying the boot header format.
pub open spec fn magic_bytes() -> Seq<u8> {
    seq![0x43u8, 0x56, 0x42, 0x4C, 0x30, 0x31, 0x0A, 0x00]
}

/// The fixed 24-byte chip-configuration prefix; the rest of the
/// configuration region is zero padding.
pub open spec fn chip_conf_prefix_bytes() -> Seq<u8> {
    seq![
        0x0Cu8, 0x00, 0x00, 0x0E,
        0x01, 0x00, 0x00, 0xA0,
        0x0C, 0x00, 0x00, 0x0E,
        0x02, 0x00, 0x00, 0xA0,
        0xA0, 0xFF, 0xFF, 0xFF,
        0xFF, 0xFF, 0xFF, 0xFF,
    ]
}

/// An array of `N` zero bytes.
pub fn zeroes<const N: usize>() -> (r: [u8; N])
    ensures
        r@ == zeroes_seq(N as nat),
{
    let r = [0u8; N];
    assert(r@ =~= zeroes_seq(N as nat));
    r
}

/// An array of `N` 0xFF bytes.
pub fn ones<const N: usize>() -> (r: [u8; N])
    ensures
        r@ == ones_seq(N as nat),
{
    let r = [0xFFu8; N];
    assert(r@ =~= ones_seq(N as nat));
    r
}

/// The four little-endian bytes of a 32-bit value.
pub fn u32_le(x: u32) -> (r: [u8; 4])
    ensures
        r@ == u32_le_bytes(x),
{
    let r = [
        (x % 0x100) as u8,
        ((x / 0x100) % 0x100) as u8,
        ((x / 0x1_0000) % 0x100) as u8,
        ((x / 0x100_0000) % 0x100) as u8,
    ];
    assert(r@ =~= u32_le_bytes(x));
    r
}

/// A stored checksum field for a given checksum value.
pub fn cksum_sentinel(c: u16) -> (r: [u8; 4])
    ensures
        r@ == cksum_sentinel_bytes(c),
{
    let r = [(c % 0x100) as u8, ((c / 0x100) % 0x100) as u8, 0xCAu8, 0xFEu8];
    assert(r@ =~= cksum_sentinel_bytes(c));
    r
}

/// Appends all bytes of a slice to a vector.
fn push_bytes(v: &mut Vec<u8>, a: &[u8])
    ensures
        final(v)@ == old(v)@ + a@,
{
    let mut i: usize = 0;
    while i < a.len()
        invariant
            i <= a.len(),
            v@ == old(v)@ + a@.subrange(0, i as int),
        decreases a.len() - i,
    {
        v.push(a[i]);
        i = i + 1;
        assert(v@ =~= old(v)@ + a@.subrange(0, i as int));
    }
    assert(v@ =~= old(v)@ + a@);
}

/// The parameter block: placeholder NAND/NOR descriptors, per-stage image
/// checksum/size/run-address fields, the chip configuration, and reserved
/// key/signature slots, all at fixed offsets.
#[derive(Debug)]
pub struct Param1 {
    pub nand_info: [u8; 128],
    pub nor_info: [u8; 36],
    pub fip_flags: [u8; 8],
    pub chip_conf_size: [u8; 4],
    // BLCP
    pub blcp_img_cksum: [u8; 4],
    pub blcp_img_size: [u8; 4],
    pub blcp_img_runaddr: [u8; 4],
    pub blcp_param_loadaddr: [u8; 4],
    pub blcp_param_size: [u8; 4],
    // BL2
    pub bl2_img_cksum: [u8; 4],
    pub bl2_img_size: [u8; 4],
    //
    pub bld_img_size: [u8; 4],
    pub param2_loadaddr: [u8; 4],
    pub reserved1: [u8; 4],
    pub chip_conf: [u8; 24],
    pub conf_pad: [u8; 736],
    // keys and signatures
    pub bl_ek: [u8; 32],
    pub root_pk: [u8; 512],
    pub bl_pk: [u8; 512],
    // last 2k
    pub bl_pk_sig: [u8; 512],
    pub chip_conf_sig: [u8; 512],
    pub bl2_img_sig: [u8; 512],
    pub blcp_img_sig: [u8; 512],
}

/// The serialized parameter block: every field in declaration order.
pub open spec fn param1_bytes(p: Param1) -> Seq<u8> {
    p.nand_info@ + p.nor_info@ + p.fip_flags@ + p.chip_conf_size@
        + p.blcp_img_cksum@ + p.blcp_img_size@ + p.blcp_img_runaddr@
        + p.blcp_param_loadaddr@ + p.blcp_param_size@
        + p.bl2_img_cksum@ + p.bl2_img_size@
        + p.bld_img_size@ + p.param2_loadaddr@ + p.reserved1@
        + p.chip_conf@ + p.conf_pad@
        + p.bl_ek@ + p.root_pk@ + p.bl_pk@
        + p.bl_pk_sig@ + p.chip_conf_sig@ + p.bl2_img_sig@ + p.blcp_img_sig@
}

/// The serialized parameter block with the defaults below, except the BL2
/// image checksum and size fields, which the builder fills from the
/// payload.
pub open spec fn default_param1_bytes(bl2_cksum: u16, bl2_size: u32) -> Seq<u8> {
    zeroes_seq(128) + ones_seq(36) + zeroes_seq(8) + u32_le_bytes(0x2F8)
        + cksum_sentinel_bytes(0) + zeroes_seq(4) + u32_le_bytes(0x0520_0200)
        + zeroes_seq(4) + zeroes_seq(4)
        + cksum_sentinel_bytes(bl2_cksum) + u32_le_bytes(bl2_size)
        + zeroes_seq(4) + u32_le_bytes(0x2A00) + zeroes_seq(4)
        + chip_conf_prefix_bytes() + zeroes_seq(736)
        + zeroes_seq(32) + zeroes_seq(512) + zeroes_seq(512)
        + zeroes_seq(512) + zeroes_seq(512) + zeroes_seq(512) + zeroes_seq(512)
}

impl Default for Param1 {
    /// The zeroed/placeholder parameter block: both stored checksum fields
    /// hold a zero checksum with the sentinel, the two run-addresses and
    /// the configuration size take their fixed values.
    fn default() -> (r: Self)
        ensures
            param1_bytes(r) == default_param1_bytes(0, 0),
            r.nand_info@ == zeroes_seq(128),
            r.nor_info@ == ones_seq(36),
            r.fip_flags@ == zeroes_seq(8),
            r.chip_conf_size@ == u32_le_bytes(0x2F8),
            r.blcp_img_cksum@ == cksum_sentinel_bytes(0),
            r.blcp_img_size@ == zeroes_seq(4),
            r.blcp_img_runaddr@ == u32_le_bytes(0x0520_0200),
            r.blcp_param_loadaddr@ == zeroes_seq(4),
            r.blcp_param_size@ == zeroes_seq(4),
            r.bl2_img_cksum@ == cksum_sentinel_bytes(0),
            r.bl2_img_size@ == u32_le_bytes(0),
            r.bld_img_size@ == zeroes_seq(4),
            r.param2_loadaddr@ == u32_le_bytes(0x2A00),
            r.reserved1@ == zeroes_seq(4),
            r.chip_conf@ == chip_conf_prefix_bytes(),
            r.conf_pad@ == zeroes_seq(736),
            r.bl_ek@ == zeroes_seq(32),
            r.root_pk@ == zeroes_seq(512),
            r.bl_pk@ == zeroes_seq(512),
            r.bl_pk_sig@ == zeroes_seq(512),
            r.chip_conf_sig@ == zeroes_seq(512),
            r.bl2_img_sig@ == zeroes_seq(512),
            r.blcp_img_sig@ == zeroes_seq(512),
    {
        let r = Param1 {
            nand_info: zeroes(),
            nor_info: ones(),
            fip_flags: zeroes(),
            chip_conf_size: u32_le(0x2F8),
            // BLCP
            blcp_img_cksum: cksum_sentinel(0),
            blcp_img_size: zeroes(),
            blcp_img_runaddr: u32_le(0x0520_0200),
            blcp_param_loadaddr: zeroes(),
            blcp_param_size: zeroes(),
            // BL2: the builder fills these in from the payload
            bl2_img_cksum: cksum_sentinel(0),
            bl2_img_size: u32_le(0),
            //
            bld_img_size: zeroes(),
            param2_loadaddr: u32_le(0x2A00),
            reserved1: zeroes(),
            chip_conf: chip_conf_prefix(),
            conf_pad: zeroes(),
            bl_ek: zeroes(),
            root_pk: zeroes(),
            bl_pk: zeroes(),
            bl_pk_sig: zeroes(),
            chip_conf_sig: zeroes(),
            bl2_img_sig: zeroes(),
            blcp_img_sig: zeroes(),
        };
        r
    }
}

/// The fixed 24-byte chip-configuration prefix as an array.
pub fn chip_conf_prefix() -> (r: [u8; 24])
    ensures
        r@ == chip_conf_prefix_bytes(),
{
    let r = [
        0x0Cu8, 0x00, 0x00, 0x0E,
        0x01, 0x00, 0x00, 0xA0,
        0x0C, 0x00, 0x00, 0x0E,
        0x02, 0x00, 0x00, 0xA0,
        0xA0, 0xFF, 0xFF, 0xFF,
        0xFF, 0xFF, 0xFF, 0xFF,
    ];
    assert(r@ =~= chip_conf_prefix_bytes());
    r
}

impl Param1 {
    /// Serializes the parameter block; its length is fixed.
    pub fn to_slice(&self) -> (r: Vec<u8>)
        ensures
            r@ == param1_bytes(*self),
            r@.len() == HEADER_EXPORT_LEN,
    {
        let mut v: Vec<u8> = Vec::new();
        push_bytes(&mut v, self.nand_info.as_slice());
        push_bytes(&mut v, self.nor_info.as_slice());
        push_bytes(&mut v, self.fip_flags.as_slice());
        push_bytes(&mut v, self.chip_conf_size.as_slice());
        push_bytes(&mut v, self.blcp_img_cksum.as_slice());
        push_bytes(&mut v, self.blcp_img_size.as_slice());
        push_bytes(&mut v, self.blcp_img_runaddr.as_slice());
        push_bytes(&mut v, self.blcp_param_loadaddr.as_slice());
        push_bytes(&mut v, self.blcp_param_size.as_slice());
        push_bytes(&mut v, self.bl2_img_cksum.as_slice());
        push_bytes(&mut v, self.bl2_img_size.as_slice());
        push_bytes(&mut v, self.bld_img_size.as_slice());
        push_bytes(&mut v, self.param2_loadaddr.as_slice());
        push_bytes(&mut v, self.reserved1.as_slice());
        push_bytes(&mut v, self.chip_conf.as_slice());
        push_bytes(&mut v, self.conf_pad.as_slice());
        push_bytes(&mut v, self.bl_ek.as_slice());
        push_bytes(&mut v, self.root_pk.as_slice());
        push_bytes(&mut v, self.bl_pk.as_slice());
        push_bytes(&mut v, self.bl_pk_sig.as_slice());
        push_bytes(&mut v, self.chip_conf_sig.as_slice());
        push_bytes(&mut v, self.bl2_img_sig.as_slice());
        push_bytes(&mut v, self.blcp_img_sig.as_slice());
        assert(v@ =~= param1_bytes(*self));
        v
    }

    /// The parameter block's own checksum, over its first 2032 bytes.
    pub fn checksum(&self) -> (r: u16)
        ensures
            r == crc16_xmodem(param1_bytes(*self).subrange(0, PARAM1_CHECKSUM_SPAN as int)),
    {
        let bytes = self.to_slice();
        let covered = slice_subrange(bytes.as_slice(), 0, PARAM1_CHECKSUM_SPAN);
        checksum(covered)
    }
}

/// The outer boot header envelope: magic, pad, the parameter block's
/// stored checksum, then the parameter block itself.
#[derive(Debug)]
pub struct CVITekHeader {
    pub magic: [u8; 8],
    pub head_pad: [u8; 4],
    pub param1_checksum: [u8; 4],
    pub param1: Param1,
}

/// The exported record: the 16-byte envelope prefix followed by the
/// parameter block, cut to the fixed export length.
pub open spec fn cvitek_header_bytes(h: CVITekHeader) -> Seq<u8> {
    h.magic@ + h.head_pad@ + h.param1_checksum@
        + param1_bytes(h.param1).subrange(0, HEADER_EXPORT_LEN as int - 16)
}

impl Default for CVITekHeader {
    /// The envelope around a default parameter block, with a zeroed stored
    /// checksum.
    fn default() -> (r: Self)
        ensures
            r.magic@ == magic_bytes(),
            r.head_pad@ == zeroes_seq(4),
            r.param1_checksum@ == zeroes_seq(4),
            param1_bytes(r.param1) == default_param1_bytes(0, 0),
    {
        let magic = [0x43u8, 0x56, 0x42, 0x4C, 0x30, 0x31, 0x0A, 0x00];
        assert(magic@ =~= magic_bytes());
        CVITekHeader {
            magic,
            head_pad: zeroes(),
            param1_checksum: zeroes(),
            param1: Param1::default(),
        }
    }
}

impl CVITekHeader {
    /// Serializes the record; its length is fixed regardless of contents.
    pub fn to_slice(&self) -> (r: Vec<u8>)
        ensures
            r@ == cvitek_header_bytes(*self),
            r@.len() == HEADER_EXPORT_LEN,
    {
        let mut v: Vec<u8> = Vec::new();
        push_bytes(&mut v, self.magic.as_slice());
        push_bytes(&mut v, self.head_pad.as_slice());
        push_bytes(&mut v, self.param1_checksum.as_slice());
        let block = self.param1.to_slice();
        let cut = slice_subrange(block.as_slice(), 0, HEADER_EXPORT_LEN - 16);
        push_bytes(&mut v, cut);
        assert(v@ =~= cvitek_header_bytes(*self));
        v
    }
}

/// The exported boot header for a payload: the default parameter block
/// with the payload's checksum and length in its BL2 fields, wrapped in
/// the envelope with the block's own checksum stored beside the sentinel.
pub open spec fn boot_header_bytes(payload: Seq<u8>) -> Seq<u8> {
    let pblock = default_param1_bytes(crc16_xmodem(payload), payload.len() as u32);
    let block_cksum = crc16_xmodem(pblock.subrange(0, PARAM1_CHECKSUM_SPAN as int));
    magic_bytes() + zeroes_seq(4) + cksum_sentinel_bytes(block_cksum)
        + pblock.subrange(0, HEADER_EXPORT_LEN as int - 16)
}

/// Assembles the boot header record for a payload.
pub fn build_boot_header(payload: &[u8]) -> (r: Vec<u8>)
    requires
        payload@.len() <= u32::MAX,
    ensures
        r@ == boot_header_bytes(payload@),
        r@.len() == HEADER_EXPORT_LEN,
{
    let payload_cksum = checksum(payload);
    let mut param1 = Param1::default();
    param1.bl2_img_size = u32_le(payload.len() as u32);
    param1.bl2_img_cksum = cksum_sentinel(payload_cksum);
    assert(param1_bytes(param1)
        =~= default_param1_bytes(payload_cksum, payload@.len() as u32));
    let block_cksum = param1.checksum();
    let header = CVITekHeader {
        magic: magic(),
        head_pad: zeroes(),
        param1_checksum: cksum_sentinel(block_cksum),
        param1,
    };
    let r = header.to_slice();
    assert(r@ =~= boot_header_bytes(payload@));
    r
}

/// The 8-byte magic as an array.
pub fn magic() -> (r: [u8; 8])
    ensures
        r@ == magic_bytes(),
{
    let r = [0x43u8, 0x56, 0x42, 0x4C, 0x30, 0x31, 0x0A, 0x00];
    assert(r@ =~= magic_bytes());
    r
}

/// Building the boot header is deterministic: equal payloads yield
/// byte-identical records.
pub proof fn lemma_boot_header_deterministic(p1: Seq<u8>, p2: Seq<u8>)
    requires
        p1 == p2,
    ensures
        boot_header_bytes(p1) == boot_header_bytes(p2),
{
}

/// The boot header's length is the fixed export length for every payload,
/// whatever the payload's size or contents.
pub proof fn lemma_boot_header_len(payload: Seq<u8>)
    ensures
        boot_header_bytes(payload).len() == HEADER_EXPORT_LEN,
{
    let pblock = default_param1_bytes(crc16_xmodem(payload), payload.len() as u32);
    assert(pblock.len() == 4080);
}

/// The payload's size, rounded up to the image alignment.
pub fn aligned_size(sz: usize) -> (r: usize)
    requires
        sz + IMG_ALIGN <= usize::MAX,
    ensures
        sz % IMG_ALIGN == 0 ==> r == sz,
        sz % IMG_ALIGN != 0 ==> r == (sz / IMG_ALIGN + 1) * IMG_ALIGN,
        r >= sz,
        r % IMG_ALIGN == 0,
{
    if sz % IMG_ALIGN == 0 {
        sz
    } else {
        let q = sz / IMG_ALIGN;
        proof {
            vstd::arithmetic::div_mod::lemma_fundamental_div_mod(sz as int, IMG_ALIGN as int);
        }
        let r = (q + 1) * IMG_ALIGN;
        proof {
            vstd::arithmetic::div_mod::lemma_fundamental_div_mod_converse_mod(
                r as int, IMG_ALIGN as int, q as int + 1, 0);
        }
        r
    }
}

} // verus!
