//! Fixed-width byte helpers: comparing identifiers and taking fixed-size
//! fields out of instruction data.
use vstd::prelude::*;

verus! {

/// Compares two 32-byte identifiers or digests.
pub fn eq32(a: &[u8; 32], b: &[u8; 32]) -> (r: bool)
    ensures
        r == (a@ == b@),
{
    let mut i: usize = 0;
    while i < 32
        invariant
            i <= 32,
            a@.len() == 32,
            b@.len() == 32,
            forall|j: int| 0 <= j < i ==> a@[j] == b@[j],
        decreases 32 - i,
    {
        if a[i] != b[i] {
            return false;
        }
        i = i + 1;
    }
    assert(a@ =~= b@);
    true
}

/// Copies the 64 bytes of `data` that start at `off`.
pub fn copy64(data: &[u8], off: usize) -> (r: [u8; 64])
    requires
        off + 64 <= data@.len(),
    ensures
        r@ == data@.subrange(off as int, off + 64),
{
    let mut out: [u8; 64] = [0u8; 64];
    let len = data.len();
    let mut i: usize = 0;
    while i < 64
        invariant
            i <= 64,
            len == data@.len(),
            off + 64 <= data@.len(),
            out@.len() == 64,
            forall|j: int| 0 <= j < i ==> out@[j] == data@[off + j],
        decreases 64 - i,
    {
        out[i] = data[off + i];
        i = i + 1;
    }
    assert(out@ =~= data@.subrange(off as int, off + 64));
    out
}

/// Copies the 32 bytes of `data` that start at `off`.
pub fn copy32(data: &[u8], off: usize) -> (r: [u8; 32])
    requires
        off + 32 <= data@.len(),
    ensures
        r@ == data@.subrange(off as int, off + 32),
{
    let mut out: [u8; 32] = [0u8; 32];
    let len = data.len();
    let mut i: usize = 0;
    while i < 32
        invariant
            i <= 32,
            len == data@.len(),
            off + 32 <= data@.len(),
            out@.len() == 32,
            forall|j: int| 0 <= j < i ==> out@[j] == data@[off + j],
        decreases 32 - i,
    {
        out[i] = data[off + i];
        i = i + 1;
    }
    assert(out@ =~= data@.subrange(off as int, off + 32));
    out
}

} // verus!
