use vstd::prelude::*;

verus! {

/// The array that holds the `N` bytes of `s`.
pub open spec fn array_from_seq<const N: usize>(s: Seq<u8>) -> [u8; N]
    recommends
        s.len() == N,
{
    choose|a: [u8; N]| a@ == s
}

/// Every array is the one that its own bytes stand for.
pub proof fn lemma_array_from_seq_of_view<const N: usize>(a: [u8; N])
    ensures
        array_from_seq::<N>(a@) == a,
{
    assert(array_from_seq::<N>(a@) =~= a);
}

/// Copies a slice of `N` bytes into an array.
pub fn array_from_slice<const N: usize>(src: &[u8]) -> (a: [u8; N])
    requires
        src@.len() == N,
    ensures
        a@ == src@,
        a == array_from_seq::<N>(src@),
{
    let mut a = [0u8; N];
    let mut i: usize = 0;
    while i < N
        invariant
            i <= N,
            src@.len() == N,
            forall|j: int| 0 <= j < i ==> a[j] == src[j],
        decreases N - i,
    {
        a[i] = src[i];
        i += 1;
    }
    assert(a@ =~= src@);
    proof {
        lemma_array_from_seq_of_view(a);
    }
    a
}

/// Whether two arrays hold the same bytes.
pub fn arrays_equal<const N: usize>(a: &[u8; N], b: &[u8; N]) -> (same: bool)
    ensures
        same == (a@ == b@),
        same == (*a == *b),
{
    let mut i: usize = 0;
    while i < N
        invariant
            i <= N,
            forall|j: int| 0 <= j < i ==> a[j] == b[j],
        decreases N - i,
    {
        if a[i] != b[i] {
            return false;
        }
        i += 1;
    }
    assert(*a =~= *b);
    true
}

/// Copies `src` over the bytes of `dst` that start at `at`.
pub fn write_bytes(dst: &mut [u8], at: usize, src: &[u8])
    requires
        at + src@.len() <= old(dst)@.len(),
    ensures
        final(dst)@ == old(dst)@.subrange(0, at as int) + src@ + old(dst)@.subrange(
            at + src@.len(),
            old(dst)@.len() as int,
        ),
{
    let n = dst.len();
    let mut i: usize = 0;
    while i < src.len()
        invariant
            i <= src@.len(),
            at + src@.len() <= n,
            dst@.len() == n,
            old(dst)@.len() == n,
            forall|j: int| 0 <= j < at ==> dst@[j] == old(dst)@[j],
            forall|j: int| 0 <= j < i ==> dst@[at + j] == src@[j],
            forall|j: int| at + i <= j < dst@.len() ==> dst@[j] == old(dst)@[j],
        decreases src@.len() - i,
    {
        dst[at + i] = src[i];
        i += 1;
    }
    assert(dst@ =~= old(dst)@.subrange(0, at as int) + src@ + old(dst)@.subrange(
        at + src@.len(),
        old(dst)@.len() as int,
    ));
}

} // verus!
