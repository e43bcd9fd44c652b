//! Copying between byte arrays of fixed size.

use vstd::prelude::*;

verus! {

/// Overwrites the `M` bytes of `dst` that start at `at` with `src`.
pub fn copy_at<const N: usize, const M: usize>(dst: &mut [u8; N], at: usize, src: &[u8; M])
    requires
        at + M <= N,
    ensures
        final(dst)@ == old(dst)@.take(at as int) + src@ + old(dst)@.skip(at + M),
{
    let mut i: usize = 0;
    while i < M
        invariant
            at + M <= N,
            i <= M,
            forall|j: int| 0 <= j < N && !(at <= j < at + i) ==> dst@[j] == old(dst)@[j],
            forall|j: int| 0 <= j < i ==> dst@[at + j] == src@[j],
        decreases M - i,
    {
        dst[at + i] = src[i];
        i += 1;
    }
}

/// The `M` bytes of `src` that start at `from`.
pub fn bytes_from<const N: usize, const M: usize>(src: &[u8; N], from: usize) -> (r: [u8; M])
    requires
        from + M <= N,
    ensures
        r@ == src@.subrange(from as int, from + M),
{
    let mut out = [0u8; M];
    let mut i: usize = 0;
    while i < M
        invariant
            from + M <= N,
            i <= M,
            forall|j: int| 0 <= j < i ==> out@[j] == src@[from + j],
        decreases M - i,
    {
        out[i] = src[from + i];
        i += 1;
    }
    out
}

} // verus!
