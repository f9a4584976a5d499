use vstd::prelude::*;

verus! {

/// Appends a copy of `src` behind the bytes of `dst`.
pub(crate) fn vec_extend(dst: &mut Vec<u8>, src: &Vec<u8>)
    ensures
        final(dst)@ == old(dst)@ + src@,
{
    let mut i: usize = 0;
    #[verifier::loop_isolation(false)]
    while i < src.len()
        invariant
            i <= src.len(),
            dst@ == old(dst)@ + src@.take(i as int),
        decreases src.len() - i,
    {
        dst.push(src[i]);
        proof {
            assert(dst@ =~= old(dst)@ + src@.take(i + 1));
        }
        i += 1;
    }
    proof {
        assert(final(dst)@ =~= old(dst)@ + src@);
    }
}

/// A copy of the first `k` bytes of `src`.
pub(crate) fn vec_prefix(src: &Vec<u8>, k: usize) -> (r: Vec<u8>)
    requires
        k <= src@.len(),
    ensures
        r@ == src@.take(k as int),
{
    let mut out: Vec<u8> = Vec::new();
    let mut i: usize = 0;
    #[verifier::loop_isolation(false)]
    while i < k
        invariant
            i <= k,
            out@ == src@.take(i as int),
        decreases k - i,
    {
        out.push(src[i]);
        proof {
            assert(out@ =~= src@.take(i + 1));
        }
        i += 1;
    }
    out
}

/// A copy of the bytes of `src` after the first `k`.
pub(crate) fn vec_suffix(src: &Vec<u8>, k: usize) -> (r: Vec<u8>)
    requires
        k <= src@.len(),
    ensures
        r@ == src@.skip(k as int),
{
    let mut out: Vec<u8> = Vec::new();
    let mut i: usize = k;
    #[verifier::loop_isolation(false)]
    while i < src.len()
        invariant
            k <= i <= src.len(),
            out@ == src@.subrange(k as int, i as int),
        decreases src.len() - i,
    {
        out.push(src[i]);
        proof {
            assert(out@ =~= src@.subrange(k as int, i + 1));
        }
        i += 1;
    }
    proof {
        assert(out@ =~= src@.skip(k as int));
    }
    out
}

} // verus!
