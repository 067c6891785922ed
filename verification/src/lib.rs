//! Protocol and transport core for a SoC mask-ROM USB loader: device
//! discovery, the checksummed binary frame format, chunked payload
//! transfer, and the boot-header builder the ROM loader consumes.
use vstd::prelude::*;

pub mod boot_header;
pub mod checksum;
pub mod chunk;
pub mod frame;
pub mod locate;
pub mod orchestrator;

verus! {

/// How a run of the protocol fails; any of these aborts the remaining
/// sequence, nothing is retried by the core.
#[derive(Clone, Copy, Debug, PartialEq, Eq, Structural)]
pub enum ProtocolError {
    /// Device discovery exceeded its timeout.
    DeviceNotFound,
    /// The device enumerated but its interface could not be opened.
    PortOpenFailure,
    /// A write did not complete, or a read returned too few bytes.
    IoFailure,
    /// The response's echoed checksum does not match the checksum of the
    /// frame that was sent; both values are kept for diagnostics.
    ChecksumMismatch { expected: u16, got: u16 },
}

/// Concatenates two byte slices into a fresh vector, left then right.
pub fn concat(a: &[u8], b: &[u8]) -> (r: Vec<u8>)
    ensures
        r@ == a@ + b@,
{
    let mut r: Vec<u8> = Vec::new();
    let mut i: usize = 0;
    while i < a.len()
        invariant
            i <= a.len(),
            r@ == a@.subrange(0, i as int),
        decreases a.len() - i,
    {
        r.push(a[i]);
        i = i + 1;
    }
    assert(r@ =~= a@);
    let mut j: usize = 0;
    while j < b.len()
        invariant
            j <= b.len(),
            r@ == a@ + b@.subrange(0, j as int),
        decreases b.len() - j,
    {
        r.push(b[j]);
        j = j + 1;
        assert(r@ =~= a@ + b@.subrange(0, j as int));
    }
    assert(r@ =~= a@ + b@);
    r
}

} // verus!
