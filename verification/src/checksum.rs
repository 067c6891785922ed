//! The 16-bit checksum used both for wire integrity of each frame and for
//! the two embedded checksums inside the boot header.
use vstd::prelude::*;

verus! {

/// The checksum value of a byte sequence under the fixed CRC variant
/// (polynomial 0x1021, zero initial value, no reflection, no final xor).
pub uninterp spec fn crc16_xmodem(b: Seq<u8>) -> u16;

/// Relies on crc::Crc::<u16>::checksum with the CRC_16_XMODEM algorithm:
/// the result depends on the input bytes alone.
#[verifier::external_body]
fn crc16(data: &[u8]) -> (r: u16)
    ensures
        r == crc16_xmodem(data@),
{
    crc::Crc::<u16>::new(&crc::CRC_16_XMODEM).checksum(data)
}

/// Computes the protocol checksum of a byte buffer. Deterministic: two
/// calls on equal byte sequences return equal values.
pub fn checksum(data: &[u8]) -> (r: u16)
    ensures
        r == crc16_xmodem(data@),
{
    crc16(data)
}

/// The checksum is a pure function of the bytes: computations over equal
/// byte sequences agree, however often they are repeated.
pub proof fn lemma_checksum_deterministic(a: Seq<u8>, b: Seq<u8>)
    requires
        a == b,
    ensures
        crc16_xmodem(a) == crc16_xmodem(b),
{
}

} // verus!
