use vstd::prelude::*;

verus! {

/// A hash computation that is fed bytes in pieces and then gives the digest of all of
/// them. Its view is the bytes fed so far.
pub trait Digest: Sized + View<V = Seq<u8>> {
    /// The computation's internal state is consistent with what was fed.
    spec fn well_formed(&self) -> bool;

    /// The digest of a message.
    spec fn digest_of(m: Seq<u8>) -> Seq<u8>;

    /// The number of bytes in a digest.
    spec fn digest_len() -> nat;

    /// Feeds `input`; the running byte count must fit in 64 bits.
    fn update(&mut self, input: &[u8])
        requires
            old(self).well_formed(),
            old(self)@.len() + input@.len() <= u64::MAX,
        ensures
            final(self).well_formed(),
            final(self)@ == old(self)@ + input@,
    ;

    /// Finishes: writes the digest of all input into the start of `out`, whose other
    /// bytes stay as they were.
    fn result(self, out: &mut [u8])
        requires
            self.well_formed(),
            old(out)@.len() >= Self::digest_len(),
        ensures
            final(out)@.len() == old(out)@.len(),
            final(out)@.subrange(0, Self::digest_len() as int) == Self::digest_of(self@),
            final(out)@.subrange(Self::digest_len() as int, old(out)@.len() as int)
                == old(out)@.subrange(Self::digest_len() as int, old(out)@.len() as int),
    ;
}

/// Feeding `b1` and then `b2` gives the same digest as feeding `b1 + b2` in one call,
/// whatever was fed before: the digest depends only on the concatenation of all input.
pub proof fn lemma_incremental<D: Digest>(before: Seq<u8>, b1: Seq<u8>, b2: Seq<u8>)
    ensures
        D::digest_of(before + b1 + b2) == D::digest_of(before + (b1 + b2)),
{
    assert(before + b1 + b2 =~= before + (b1 + b2));
}

/// Two computations, separate or repeated, that were fed the same bytes give the same
/// digest.
pub proof fn lemma_deterministic<D: Digest>(a: D, b: D)
    requires
        a@ == b@,
    ensures
        D::digest_of(a@) == D::digest_of(b@),
{
}

} // verus!
