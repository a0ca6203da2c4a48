use vstd::prelude::*;

verus! {

/// The word whose bytes, most significant first, are `b0 b1 b2 b3`.
pub open spec fn be32(b0: u8, b1: u8, b2: u8, b3: u8) -> u32 {
    ((b0 as u32) << 24u32) | ((b1 as u32) << 16u32) | ((b2 as u32) << 8u32) | (b3 as u32)
}

/// The big-endian word that starts at byte `i` of `b`.
pub open spec fn be_word_at(b: Seq<u8>, i: int) -> u32 {
    be32(b[i], b[i + 1], b[i + 2], b[i + 3])
}

/// The little-endian word that starts at byte `i` of `b`.
pub open spec fn le_word_at(b: Seq<u8>, i: int) -> u32 {
    be32(b[i + 3], b[i + 2], b[i + 1], b[i])
}

/// The four bytes of `x`, most significant first.
pub open spec fn be_bytes(x: u32) -> Seq<u8> {
    seq![(x >> 24u32) as u8, (x >> 16u32) as u8, (x >> 8u32) as u8, x as u8]
}

/// The four bytes of `x`, least significant first.
pub open spec fn le_bytes(x: u32) -> Seq<u8> {
    seq![x as u8, (x >> 8u32) as u8, (x >> 16u32) as u8, (x >> 24u32) as u8]
}

/// The eight bytes of `x`, least significant first.
pub open spec fn le_bytes64(x: u64) -> Seq<u8> {
    seq![
        x as u8,
        (x >> 8u64) as u8,
        (x >> 16u64) as u8,
        (x >> 24u64) as u8,
        (x >> 32u64) as u8,
        (x >> 40u64) as u8,
        (x >> 48u64) as u8,
        (x >> 56u64) as u8,
    ]
}

/// The eight bytes of `x`, most significant first.
pub open spec fn be_bytes64(x: u64) -> Seq<u8> {
    seq![
        (x >> 56u64) as u8,
        (x >> 48u64) as u8,
        (x >> 40u64) as u8,
        (x >> 32u64) as u8,
        (x >> 24u64) as u8,
        (x >> 16u64) as u8,
        (x >> 8u64) as u8,
        x as u8,
    ]
}

/// Words written one after the other, each big-endian.
pub open spec fn words_be(w: Seq<u32>) -> Seq<u8>
    decreases w.len(),
{
    if w.len() == 0 {
        Seq::empty()
    } else {
        words_be(w.drop_last()) + be_bytes(w.last())
    }
}

/// Words written one after the other, each little-endian.
pub open spec fn words_le(w: Seq<u32>) -> Seq<u8>
    decreases w.len(),
{
    if w.len() == 0 {
        Seq::empty()
    } else {
        words_le(w.drop_last()) + le_bytes(w.last())
    }
}

/// Rotation of `x` left by `s` bits.
pub open spec fn rotl(x: u32, s: u32) -> u32 {
    (x << s) | (x >> (32u32 - s))
}

/// Rotates `x` left by `s` bits.
pub fn rotate_left(x: u32, s: u32) -> (r: u32)
    requires
        0 < s < 32,
    ensures
        r == rotl(x, s),
{
    (x << s) | (x >> (32u32 - s))
}

/// Reading back the bytes of a word gives the word.
pub proof fn lemma_be_word_of_bytes(x: u32)
    ensures
        be32(be_bytes(x)[0], be_bytes(x)[1], be_bytes(x)[2], be_bytes(x)[3]) == x,
{
    assert(((((x >> 24u32) as u8) as u32) << 24u32) | ((((x >> 16u32) as u8) as u32) << 16u32)
        | ((((x >> 8u32) as u8) as u32) << 8u32) | ((x as u8) as u32) == x) by (bit_vector);
}

/// Writing out a word read from four bytes gives the bytes.
pub proof fn lemma_be_bytes_of_word(b0: u8, b1: u8, b2: u8, b3: u8)
    ensures
        be_bytes(be32(b0, b1, b2, b3)) == seq![b0, b1, b2, b3],
{
    let x = be32(b0, b1, b2, b3);
    assert((((((b0 as u32) << 24u32) | ((b1 as u32) << 16u32) | ((b2 as u32) << 8u32) | (b3 as u32))
        >> 24u32) as u8) == b0) by (bit_vector);
    assert((((((b0 as u32) << 24u32) | ((b1 as u32) << 16u32) | ((b2 as u32) << 8u32) | (b3 as u32))
        >> 16u32) as u8) == b1) by (bit_vector);
    assert((((((b0 as u32) << 24u32) | ((b1 as u32) << 16u32) | ((b2 as u32) << 8u32) | (b3 as u32))
        >> 8u32) as u8) == b2) by (bit_vector);
    assert(((((b0 as u32) << 24u32) | ((b1 as u32) << 16u32) | ((b2 as u32) << 8u32) | (b3 as u32))
        as u8) == b3) by (bit_vector);
    assert(be_bytes(x) =~= seq![b0, b1, b2, b3]);
}

/// Reads the big-endian word at byte `i`.
pub fn read_be32(b: &[u8], i: usize) -> (r: u32)
    requires
        i + 4 <= b@.len(),
    ensures
        r == be_word_at(b@, i as int),
{
    assert(b@.len() == b.len());
    ((b[i] as u32) << 24u32) | ((b[i + 1] as u32) << 16u32) | ((b[i + 2] as u32) << 8u32) | (
    b[i + 3] as u32)
}

/// Reads the little-endian word at byte `i`.
pub fn read_le32(b: &[u8], i: usize) -> (r: u32)
    requires
        i + 4 <= b@.len(),
    ensures
        r == le_word_at(b@, i as int),
{
    assert(b@.len() == b.len());
    ((b[i + 3] as u32) << 24u32) | ((b[i + 2] as u32) << 16u32) | ((b[i + 1] as u32) << 8u32) | (
    b[i] as u32)
}

/// Writes `x` big-endian into bytes `i .. i + 4` of `out`.
pub fn write_be32(out: &mut [u8], i: usize, x: u32)
    requires
        i + 4 <= old(out)@.len(),
    ensures
        final(out)@ == old(out)@.subrange(0, i as int) + be_bytes(x) + old(out)@.subrange(
            i + 4,
            old(out)@.len() as int,
        ),
{
    out[i] = (x >> 24u32) as u8;
    out[i + 1] = (x >> 16u32) as u8;
    out[i + 2] = (x >> 8u32) as u8;
    out[i + 3] = x as u8;
    assert(out@ =~= old(out)@.subrange(0, i as int) + be_bytes(x) + old(out)@.subrange(
        i + 4,
        old(out)@.len() as int,
    ));
}

/// Writes `x` little-endian into bytes `i .. i + 4` of `out`.
pub fn write_le32(out: &mut [u8], i: usize, x: u32)
    requires
        i + 4 <= old(out)@.len(),
    ensures
        final(out)@ == old(out)@.subrange(0, i as int) + le_bytes(x) + old(out)@.subrange(
            i + 4,
            old(out)@.len() as int,
        ),
{
    out[i] = x as u8;
    out[i + 1] = (x >> 8u32) as u8;
    out[i + 2] = (x >> 16u32) as u8;
    out[i + 3] = (x >> 24u32) as u8;
    assert(out@ =~= old(out)@.subrange(0, i as int) + le_bytes(x) + old(out)@.subrange(
        i + 4,
        old(out)@.len() as int,
    ));
}

} // verus!
