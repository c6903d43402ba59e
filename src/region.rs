//! Bounds-checked byte access to mapped buffer memory: the bytes of a push
//! are written into the staging belt's mapped range, and results computed on
//! the device are read back from the arena's.
use vstd::prelude::*;

verus! {

/// `dst` with `bytes` written over it from offset `at` on.
pub open spec fn written(dst: Seq<u8>, at: int, bytes: Seq<u8>) -> Seq<u8> {
    dst.subrange(0, at) + bytes + dst.subrange(at + bytes.len(), dst.len() as int)
}

/// Writes `bytes` into `dst` from `offset` on, leaving the rest of `dst` as
/// it was.
pub fn write_bytes(dst: &mut [u8], offset: u64, bytes: &[u8])
    requires
        offset + bytes@.len() <= old(dst)@.len(),
    ensures
        final(dst)@ == written(old(dst)@, offset as int, bytes@),
{
    let total = dst.len();
    assert(offset + bytes@.len() <= total);
    let n = bytes.len();
    let start = offset as usize;
    let mut i: usize = 0;
    while i < n
        invariant
            start == offset,
            n == bytes@.len(),
            start + n <= total,
            total == dst@.len(),
            dst@.len() == old(dst)@.len(),
            i <= n,
            forall|k: int| 0 <= k < start ==> dst@[k] == old(dst)@[k],
            forall|k: int| start + i <= k < dst@.len() ==> dst@[k] == old(dst)@[k],
            forall|k: int| 0 <= k < i ==> dst@[start + k] == bytes@[k],
        decreases n - i,
    {
        dst[start + i] = bytes[i];
        i = i + 1;
    }
    assert(dst@ =~= written(old(dst)@, offset as int, bytes@));
}

/// The `len` bytes of `src` from `offset` on.
pub fn read_bytes(src: &[u8], offset: u64, len: u64) -> (r: Vec<u8>)
    requires
        offset + len <= src@.len(),
    ensures
        r@ == src@.subrange(offset as int, offset + len),
{
    let total = src.len();
    assert(offset + len <= total);
    let start = offset as usize;
    let n = len as usize;
    let mut r: Vec<u8> = Vec::with_capacity(n);
    let mut i: usize = 0;
    while i < n
        invariant
            start == offset,
            n == len,
            start + n <= total,
            total == src@.len(),
            i <= n,
            r@ =~= src@.subrange(start as int, start + i),
        decreases n - i,
    {
        r.push(src[start + i]);
        i = i + 1;
    }
    r
}

/// Bytes written into the staging belt, copied by the device into the arena
/// the way a buffer-to-buffer copy does, read back from the arena unchanged:
/// writing at `src`, copying `bytes.len()` bytes from `src` to `dst`, then
/// reading as many bytes at `dst` yields `bytes` again.
pub proof fn lemma_round_trip(staging: Seq<u8>, arena: Seq<u8>, src: int, dst: int, bytes: Seq<u8>)
    requires
        0 <= src,
        src + bytes.len() <= staging.len(),
        0 <= dst,
        dst + bytes.len() <= arena.len(),
    ensures
        ({
            let n = bytes.len() as int;
            let staged = written(staging, src, bytes);
            let copied = written(arena, dst, staged.subrange(src, src + n));
            copied.subrange(dst, dst + n) == bytes
        }),
{
    let n = bytes.len() as int;
    let staged = written(staging, src, bytes);
    assert(staged.subrange(src, src + n) =~= bytes);
    let copied = written(arena, dst, staged.subrange(src, src + n));
    assert(copied.subrange(dst, dst + n) =~= bytes);
}

} // verus!
