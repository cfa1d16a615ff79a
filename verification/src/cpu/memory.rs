//! Copies between memories and register files.

use crate::cpu::model::overlay;
use vstd::prelude::*;

verus! {

/// Copies `count` bytes of `src`, from index `from` on, to `dst` at `start`.
pub(crate) fn copy_bytes(dst: &mut Vec<u8>, start: usize, src: &[u8], from: usize, count: usize)
    requires
        start + count <= old(dst)@.len(),
        from + count <= src@.len() <= usize::MAX,
    ensures
        final(dst)@ == overlay(old(dst)@, start as int, src@.subrange(from as int, from + count)),
    no_unwind
{
    let dst_len = dst.len();
    let mut k: usize = 0;
    while k < count
        invariant
            k <= count,
            dst_len == dst@.len(),
            src@.len() <= usize::MAX,
            start + count <= dst@.len(),
            dst@.len() == old(dst)@.len(),
            from + count <= src@.len(),
            forall|j: int| 0 <= j < start + k ==> dst@[j] == overlay(
                old(dst)@,
                start as int,
                src@.subrange(from as int, from + count),
            )[j],
            forall|j: int| start + k <= j < dst@.len() ==> dst@[j] == old(dst)@[j],
        decreases count - k,
    {
        dst[start + k] = src[from + k];
        k += 1;
    }
    assert(dst@ =~= overlay(old(dst)@, start as int, src@.subrange(from as int, from + count)));
}

/// Copies `count` bytes of `src`, from index `from` on, to the array `dst`
/// at `start`.
pub(crate) fn load_bytes<const N: usize>(
    dst: &mut [u8; N],
    start: usize,
    src: &[u8],
    from: usize,
    count: usize,
)
    requires
        start + count <= N,
        from + count <= src@.len() <= usize::MAX,
    ensures
        final(dst)@ == overlay(old(dst)@, start as int, src@.subrange(from as int, from + count)),
    no_unwind
{
    let mut k: usize = 0;
    while k < count
        invariant
            k <= count,
            src@.len() <= usize::MAX,
            start + count <= N,
            from + count <= src@.len(),
            forall|j: int|
                0 <= j < start + k ==> dst@[j] == overlay(
                    old(dst)@,
                    start as int,
                    src@.subrange(from as int, from + count),
                )[j],
            forall|j: int| start + k <= j < N ==> dst@[j] == old(dst)@[j],
        decreases count - k,
    {
        dst[start + k] = src[from + k];
        k += 1;
    }
    assert(dst@ =~= overlay(old(dst)@, start as int, src@.subrange(from as int, from + count)));
}

} // verus!
