//! The chunked transfer algorithm: a payload is split into consecutive
//! chunks of at most 256 bytes, and chunk `i` travels in a write-to-RAM
//! frame whose address is the destination offset `i * 256`. Frames must be
//! exchanged strictly in index order; the device cannot reorder.
use vstd::prelude::*;
use vstd::slice::slice_subrange;
use vstd::arithmetic::div_mod::{lemma_fundamental_div_mod_converse_div, lemma_fundamental_div_mod_converse_mod};
use crate::frame::{build_frame, header_bytes, CVI_USB_TX_DATA_TO_RAM, CHUNK_SIZE};

verus! {

/// How many chunks a payload of `len` bytes splits into: one for each full
/// 256 bytes plus one for a shorter remainder; an exact multiple of 256
/// leaves no trailing empty chunk.
pub open spec fn chunk_count(len: int) -> int
    recommends
        0 <= len,
{
    if len % (CHUNK_SIZE as int) == 0 {
        len / (CHUNK_SIZE as int)
    } else {
        len / (CHUNK_SIZE as int) + 1
    }
}

/// Where chunk `i` of a `len`-byte payload ends: 256 bytes past its start,
/// or at the payload's end for the final shorter chunk.
pub open spec fn chunk_end(len: int, i: int) -> int {
    if len <= (i + 1) * (CHUNK_SIZE as int) {
        len
    } else {
        (i + 1) * (CHUNK_SIZE as int)
    }
}

/// Chunk `i` of a payload.
pub open spec fn chunk_of(payload: Seq<u8>, i: int) -> Seq<u8> {
    payload.subrange(i * (CHUNK_SIZE as int), chunk_end(payload.len() as int, i))
}

/// The full wire frame carrying chunk `i`: a write-to-RAM header whose
/// address is the chunk's destination offset, followed by the chunk.
pub open spec fn chunk_frame(payload: Seq<u8>, i: int) -> Seq<u8> {
    header_bytes(
        CVI_USB_TX_DATA_TO_RAM,
        chunk_of(payload, i).len() as u16,
        (i * (CHUNK_SIZE as int)) as u64,
    ) + chunk_of(payload, i)
}

/// Builds, in index order, the frames that transfer a payload chunk by
/// chunk. The caller exchanges them strictly in this order, each response
/// validated before the next frame is sent.
pub fn file_frames(payload: &[u8]) -> (r: Vec<Vec<u8>>)
    requires
        payload@.len() < 0x100_0000_0000,
    ensures
        r@.len() == chunk_count(payload@.len() as int),
        forall|i: int| 0 <= i < r@.len() ==> #[trigger] r@[i]@ == chunk_frame(payload@, i),
{
    let len = payload.len();
    let mut r: Vec<Vec<u8>> = Vec::new();
    let mut pos: usize = 0;
    while pos < len
        invariant
            len == payload@.len(),
            len < 0x100_0000_0000,
            pos <= len,
            pos < len ==> pos == (CHUNK_SIZE as int) * r@.len(),
            pos == len ==> r@.len() == chunk_count(len as int),
            forall|j: int| 0 <= j < r@.len() ==> #[trigger] r@[j]@ == chunk_frame(payload@, j),
        decreases len - pos,
    {
        let ghost k = r@.len() as int;
        let end = if len - pos < CHUNK_SIZE { len } else { pos + CHUNK_SIZE };
        let chunk = slice_subrange(payload, pos, end);
        let f = build_frame(CVI_USB_TX_DATA_TO_RAM, pos as u64, chunk);
        proof {
            assert(chunk_end(len as int, k) == end);
            assert(chunk_of(payload@, k) == chunk@);
            assert(f@ == chunk_frame(payload@, k));
            if end == len {
                if len - pos < CHUNK_SIZE {
                    lemma_fundamental_div_mod_converse_div(len as int, CHUNK_SIZE as int, k, len - pos);
                    lemma_fundamental_div_mod_converse_mod(len as int, CHUNK_SIZE as int, k, len - pos);
                } else {
                    lemma_fundamental_div_mod_converse_div(len as int, CHUNK_SIZE as int, k + 1, 0);
                    lemma_fundamental_div_mod_converse_mod(len as int, CHUNK_SIZE as int, k + 1, 0);
                }
            }
        }
        r.push(f);
        pos = end;
    }
    proof {
        if len == 0 {
            assert(chunk_count(0) == 0);
        }
    }
    r
}

/// Chunking arithmetic for a payload of length `256 * k + r` with
/// `0 < r < 256`: exactly `k + 1` chunks, the first `k` of length 256 and
/// the last of length `r`.
pub proof fn lemma_chunking(payload: Seq<u8>, k: int, r: int)
    requires
        payload.len() == (CHUNK_SIZE as int) * k + r,
        0 <= k,
        0 < r < CHUNK_SIZE,
    ensures
        chunk_count(payload.len() as int) == k + 1,
        forall|i: int| 0 <= i < k ==> #[trigger] chunk_of(payload, i).len() == CHUNK_SIZE,
        chunk_of(payload, k).len() == r,
{
    let len = payload.len() as int;
    lemma_fundamental_div_mod_converse_div(len, CHUNK_SIZE as int, k, r);
    lemma_fundamental_div_mod_converse_mod(len, CHUNK_SIZE as int, k, r);
    assert forall|i: int| 0 <= i < k implies #[trigger] chunk_of(payload, i).len() == CHUNK_SIZE by {
        assert((i + 1) * (CHUNK_SIZE as int) <= k * (CHUNK_SIZE as int)) by (nonlinear_arith)
            requires
                i + 1 <= k,
        ;
    }
}

/// Chunking arithmetic for a payload of length exactly `256 * k`: exactly
/// `k` chunks of length 256 and no trailing empty chunk.
pub proof fn lemma_chunking_exact(payload: Seq<u8>, k: int)
    requires
        payload.len() == (CHUNK_SIZE as int) * k,
        0 <= k,
    ensures
        chunk_count(payload.len() as int) == k,
        forall|i: int| 0 <= i < k ==> #[trigger] chunk_of(payload, i).len() == CHUNK_SIZE,
{
    let len = payload.len() as int;
    lemma_fundamental_div_mod_converse_div(len, CHUNK_SIZE as int, k, 0);
    lemma_fundamental_div_mod_converse_mod(len, CHUNK_SIZE as int, k, 0);
    assert forall|i: int| 0 <= i < k implies #[trigger] chunk_of(payload, i).len() == CHUNK_SIZE by {
        assert((i + 1) * (CHUNK_SIZE as int) <= k * (CHUNK_SIZE as int)) by (nonlinear_arith)
            requires
                i + 1 <= k,
        ;
    }
}

} // verus!
