use vstd::prelude::*;

verus! {

/// The smaller of `a` and `b`.
pub open spec fn min_len(a: nat, b: nat) -> nat {
    if a <= b { a } else { b }
}

/// What a slice holding `dst` holds once as much of `src` as fits has been
/// copied to its front: the common prefix of `src`, then the rest of `dst`.
pub open spec fn copied_into(dst: Seq<u8>, src: Seq<u8>) -> Seq<u8> {
    let n = min_len(dst.len(), src.len()) as int;
    src.take(n) + dst.skip(n)
}

/// Copies as many bytes of `src` as fit to the front of `dst`, leaving the
/// rest of `dst` as it was, and returns how many were copied.
pub fn copy_prefix(dst: &mut [u8], src: &[u8]) -> (n: usize)
    ensures
        n == min_len(old(dst)@.len(), src@.len()),
        final(dst)@ == copied_into(old(dst)@, src@),
{
    let n: usize = if dst.len() <= src.len() { dst.len() } else { src.len() };
    let mut i: usize = 0;
    while i < n
        invariant
            n == min_len(old(dst)@.len(), src@.len()),
            i <= n,
            dst@.len() == old(dst)@.len(),
            forall|j: int| 0 <= j < i ==> dst@[j] == src@[j],
            forall|j: int| i <= j < dst@.len() ==> dst@[j] == old(dst)@[j],
        decreases n - i,
    {
        dst[i] = src[i];
        i = i + 1;
    }
    assert(dst@ =~= copied_into(old(dst)@, src@));
    n
}

} // verus!

verus! {

/// When `dst` is at least as long as `src`, copying hands over all of `src`
/// and keeps whatever `dst` held past it.
pub proof fn lemma_copy_fits(dst: Seq<u8>, src: Seq<u8>)
    requires
        src.len() <= dst.len(),
    ensures
        copied_into(dst, src).len() == dst.len(),
        copied_into(dst, src).take(src.len() as int) == src,
        copied_into(dst, src).skip(src.len() as int) == dst.skip(src.len() as int),
{
    assert(copied_into(dst, src).take(src.len() as int) =~= src);
    assert(copied_into(dst, src).skip(src.len() as int) =~= dst.skip(src.len() as int));
}

/// When `dst` is shorter than `src`, copying fills all of `dst` with the
/// front of `src`.
pub proof fn lemma_copy_truncates(dst: Seq<u8>, src: Seq<u8>)
    requires
        dst.len() < src.len(),
    ensures
        copied_into(dst, src) == src.take(dst.len() as int),
{
    assert(copied_into(dst, src) =~= src.take(dst.len() as int));
}

} // verus!
