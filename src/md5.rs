use vstd::prelude::*;

use crate::digest::Digest;
use crate::buffer::{
    absorb, bit_length, lemma_absorb_prefix, lemma_final_blocks, padded, zeros, FixedBuffer64,
};
use crate::bytes::{
    le_bytes, le_bytes64, le_word_at, read_le32, rotate_left, rotl, words_le, write_le32,
};

verus! {

/// The 64 additive constants of MD5, four rounds of 16.
#[verifier::opaque]
pub open spec fn md5_k() -> Seq<u32> {
    seq![
        0xd76aa478u32, 0xe8c7b756u32, 0x242070dbu32, 0xc1bdceeeu32, 0xf57c0fafu32, 0x4787c62au32,
        0xa8304613u32, 0xfd469501u32, 0x698098d8u32, 0x8b44f7afu32, 0xffff5bb1u32, 0x895cd7beu32,
        0x6b901122u32, 0xfd987193u32, 0xa679438eu32, 0x49b40821u32, 0xf61e2562u32, 0xc040b340u32,
        0x265e5a51u32, 0xe9b6c7aau32, 0xd62f105du32, 0x02441453u32, 0xd8a1e681u32, 0xe7d3fbc8u32,
        0x21e1cde6u32, 0xc33707d6u32, 0xf4d50d87u32, 0x455a14edu32, 0xa9e3e905u32, 0xfcefa3f8u32,
        0x676f02d9u32, 0x8d2a4c8au32, 0xfffa3942u32, 0x8771f681u32, 0x6d9d6122u32, 0xfde5380cu32,
        0xa4beea44u32, 0x4bdecfa9u32, 0xf6bb4b60u32, 0xbebfbc70u32, 0x289b7ec6u32, 0xeaa127fau32,
        0xd4ef3085u32, 0x04881d05u32, 0xd9d4d039u32, 0xe6db99e5u32, 0x1fa27cf8u32, 0xc4ac5665u32,
        0xf4292244u32, 0x432aff97u32, 0xab9423a7u32, 0xfc93a039u32, 0x655b59c3u32, 0x8f0ccc92u32,
        0xffeff47du32, 0x85845dd1u32, 0x6fa87e4fu32, 0xfe2ce6e0u32, 0xa3014314u32, 0x4e0811a1u32,
        0xf7537e82u32, 0xbd3af235u32, 0x2ad7d2bbu32, 0xeb86d391u32,
    ]
}

fn md5_k_table() -> (v: Vec<u32>)
    ensures
        v@ == md5_k(),
        v@.len() == 64,
{
    let v: Vec<u32> = vec![
        0xd76aa478u32, 0xe8c7b756u32, 0x242070dbu32, 0xc1bdceeeu32, 0xf57c0fafu32, 0x4787c62au32,
        0xa8304613u32, 0xfd469501u32, 0x698098d8u32, 0x8b44f7afu32, 0xffff5bb1u32, 0x895cd7beu32,
        0x6b901122u32, 0xfd987193u32, 0xa679438eu32, 0x49b40821u32, 0xf61e2562u32, 0xc040b340u32,
        0x265e5a51u32, 0xe9b6c7aau32, 0xd62f105du32, 0x02441453u32, 0xd8a1e681u32, 0xe7d3fbc8u32,
        0x21e1cde6u32, 0xc33707d6u32, 0xf4d50d87u32, 0x455a14edu32, 0xa9e3e905u32, 0xfcefa3f8u32,
        0x676f02d9u32, 0x8d2a4c8au32, 0xfffa3942u32, 0x8771f681u32, 0x6d9d6122u32, 0xfde5380cu32,
        0xa4beea44u32, 0x4bdecfa9u32, 0xf6bb4b60u32, 0xbebfbc70u32, 0x289b7ec6u32, 0xeaa127fau32,
        0xd4ef3085u32, 0x04881d05u32, 0xd9d4d039u32, 0xe6db99e5u32, 0x1fa27cf8u32, 0xc4ac5665u32,
        0xf4292244u32, 0x432aff97u32, 0xab9423a7u32, 0xfc93a039u32, 0x655b59c3u32, 0x8f0ccc92u32,
        0xffeff47du32, 0x85845dd1u32, 0x6fa87e4fu32, 0xfe2ce6e0u32, 0xa3014314u32, 0x4e0811a1u32,
        0xf7537e82u32, 0xbd3af235u32, 0x2ad7d2bbu32, 0xeb86d391u32,
    ];
    assert(v@ == md5_k()) by {
        reveal(md5_k);
    }
    v
}

/// The rotation of step `j`: it depends on the round and on `j` modulo 4.
pub open spec fn md5_shift(j: int) -> u32 {
    let c = j % 4;
    if j < 16 {
        if c == 0 { 7 } else if c == 1 { 12 } else if c == 2 { 17 } else { 22 }
    } else if j < 32 {
        if c == 0 { 5 } else if c == 1 { 9 } else if c == 2 { 14 } else { 20 }
    } else if j < 48 {
        if c == 0 { 4 } else if c == 1 { 11 } else if c == 2 { 16 } else { 23 }
    } else {
        if c == 0 { 6 } else if c == 1 { 10 } else if c == 2 { 15 } else { 21 }
    }
}

/// The message word of step `j`: with `k = j mod 16`, word `k`, then `(1 + 5k) mod 16`,
/// `(5 + 3k) mod 16` and `7k mod 16` in the later rounds.
pub open spec fn md5_index(j: int) -> int {
    let k = j % 16;
    if j < 16 {
        k
    } else if j < 32 {
        (1 + 5 * k) % 16
    } else if j < 48 {
        (5 + 3 * k) % 16
    } else {
        (7 * k) % 16
    }
}

/// The boolean function of step `j`: F, G, H, I in the four rounds.
pub open spec fn md5_fn(j: int, b: u32, c: u32, d: u32) -> u32 {
    if j < 16 {
        (b & c) | (!b & d)
    } else if j < 32 {
        (b & d) | (c & !d)
    } else if j < 48 {
        b ^ c ^ d
    } else {
        c ^ (b | !d)
    }
}

/// One step on the working words `(a, b, c, d)`: the new `b` is
/// `b + rotl(a + fn(b, c, d) + word + constant, shift)`, and the words move round.
pub open spec fn md5_step(v: (u32, u32, u32, u32), w: Seq<u32>, j: int) -> (u32, u32, u32, u32) {
    let t = v.0.wrapping_add(md5_fn(j, v.1, v.2, v.3)).wrapping_add(
        w[md5_index(j)].wrapping_add(md5_k()[j]),
    );
    (v.3, rotl(t, md5_shift(j)).wrapping_add(v.1), v.1, v.2)
}

/// The working words after the first `n` steps.
pub open spec fn md5_steps(v: (u32, u32, u32, u32), w: Seq<u32>, n: nat) -> (u32, u32, u32, u32)
    decreases n,
{
    if n == 0 {
        v
    } else {
        md5_step(md5_steps(v, w, (n - 1) as nat), w, n - 1)
    }
}

/// The 16 little-endian message words of a block.
pub open spec fn md5_words(block: Seq<u8>) -> Seq<u32> {
    Seq::new(16, |i: int| le_word_at(block, 4 * i))
}

/// The MD5 compression function: 64 steps, then each state word plus its working word.
pub open spec fn md5_compress(st: Seq<u32>, block: Seq<u8>) -> Seq<u32> {
    let v = md5_steps((st[0], st[1], st[2], st[3]), md5_words(block), 64);
    seq![st[0].wrapping_add(v.0), st[1].wrapping_add(v.1), st[2].wrapping_add(v.2), st[3].wrapping_add(v.3)]
}

/// The compression function as a value.
pub open spec fn md5_f() -> spec_fn(Seq<u32>, Seq<u8>) -> Seq<u32> {
    |st: Seq<u32>, block: Seq<u8>| md5_compress(st, block)
}

/// The initial state of MD5.
pub open spec fn md5_init() -> Seq<u32> {
    seq![0x67452301u32, 0xefcdab89u32, 0x98badcfeu32, 0x10325476u32]
}

/// The message with MD5's padding: the length field is the bit length, little-endian.
pub open spec fn md5_padded(m: Seq<u8>) -> Seq<u8> {
    padded(m, le_bytes64(bit_length(m.len())))
}

/// The MD5 digest of `m`: the final state, each word little-endian.
pub open spec fn md5_digest(m: Seq<u8>) -> Seq<u8> {
    let pm = md5_padded(m);
    words_le(absorb(md5_init(), md5_f(), pm, pm.len() / 64))
}

fn md5_shift_of(j: usize) -> (r: u32)
    requires
        j < 64,
    ensures
        r == md5_shift(j as int),
        0 < r < 32,
{
    let c = j % 4;
    if j < 16 {
        if c == 0 { 7 } else if c == 1 { 12 } else if c == 2 { 17 } else { 22 }
    } else if j < 32 {
        if c == 0 { 5 } else if c == 1 { 9 } else if c == 2 { 14 } else { 20 }
    } else if j < 48 {
        if c == 0 { 4 } else if c == 1 { 11 } else if c == 2 { 16 } else { 23 }
    } else {
        if c == 0 { 6 } else if c == 1 { 10 } else if c == 2 { 15 } else { 21 }
    }
}

fn md5_index_of(j: usize) -> (r: usize)
    requires
        j < 64,
    ensures
        r == md5_index(j as int),
        r < 16,
{
    let k = j % 16;
    if j < 16 {
        k
    } else if j < 32 {
        (1 + 5 * k) % 16
    } else if j < 48 {
        (5 + 3 * k) % 16
    } else {
        (7 * k) % 16
    }
}

fn md5_fn_of(j: usize, b: u32, c: u32, d: u32) -> (r: u32)
    ensures
        r == md5_fn(j as int, b, c, d),
{
    if j < 16 {
        (b & c) | (!b & d)
    } else if j < 32 {
        (b & d) | (c & !d)
    } else if j < 48 {
        b ^ c ^ d
    } else {
        c ^ (b | !d)
    }
}

/// The MD5 compression function on `state` (4 words) and one 64-byte block.
pub fn compress(state: &mut [u32], input: &[u8])
    requires
        old(state)@.len() == 4,
        input@.len() == 64,
    ensures
        final(state)@ == md5_compress(old(state)@, input@),
{
    let k = md5_k_table();
    let mut data: Vec<u32> = Vec::new();
    let mut i: usize = 0;
    while i < 16
        invariant
            i <= 16,
            input@.len() == 64,
            data@.len() == i,
            forall|x: int| 0 <= x < i ==> data@[x] == le_word_at(input@, 4 * x),
        decreases 16 - i,
    {
        data.push(read_le32(input, 4 * i));
        i = i + 1;
    }
    assert(data@ =~= md5_words(input@));
    let ghost v0 = (state[0], state[1], state[2], state[3]);
    let mut v = (state[0], state[1], state[2], state[3]);
    let mut j: usize = 0;
    while j < 64
        invariant
            j <= 64,
            k@ == md5_k(),
            k@.len() == 64,
            data@ == md5_words(input@),
            v == md5_steps(v0, data@, j as nat),
        decreases 64 - j,
    {
        let f = md5_fn_of(j, v.1, v.2, v.3);
        let t = v.0.wrapping_add(f).wrapping_add(data[md5_index_of(j)].wrapping_add(k[j]));
        v = (v.3, rotate_left(t, md5_shift_of(j)).wrapping_add(v.1), v.1, v.2);
        j = j + 1;
    }
    state[0] = state[0].wrapping_add(v.0);
    state[1] = state[1].wrapping_add(v.1);
    state[2] = state[2].wrapping_add(v.2);
    state[3] = state[3].wrapping_add(v.3);
    assert(state@ =~= md5_compress(old(state)@, input@));
}

/// The chaining state of MD5: four words.
pub struct State {
    state: Vec<u32>,
}

impl View for State {
    type V = Seq<u32>;

    closed spec fn view(&self) -> Seq<u32> {
        self.state@
    }
}

impl State {
    /// The initial state.
    pub fn new() -> (r: Self)
        ensures
            r@ == md5_init(),
    {
        let r = State { state: vec![0x67452301u32, 0xefcdab89u32, 0x98badcfeu32, 0x10325476u32] };
        assert(r@ =~= md5_init());
        r
    }

    /// Compresses one 64-byte block into the state.
    pub fn process_block(&mut self, input: &[u8])
        requires
            old(self)@.len() == 4,
            input@.len() == 64,
        ensures
            final(self)@ == md5_compress(old(self)@, input@),
            final(self)@.len() == 4,
    {
        compress(self.state.as_mut_slice(), input);
    }

    /// Writes the state, each word little-endian, into the first 16 bytes of `out`.
    fn write_out(&self, out: &mut [u8])
        requires
            self@.len() == 4,
            old(out)@.len() >= 16,
        ensures
            final(out)@.len() == old(out)@.len(),
            final(out)@.subrange(0, 16) == words_le(self@),
            final(out)@.subrange(16, old(out)@.len() as int) == old(out)@.subrange(
                16,
                old(out)@.len() as int,
            ),
    {
        let ghost n = out@.len() as int;
        let mut i: usize = 0;
        assert(out@.subrange(0, 0) =~= words_le(self@.subrange(0, 0)));
        while i < 4
            invariant
                self@.len() == 4,
                i <= 4,
                out@.len() == n,
                old(out)@.len() == n,
                n >= 16,
                out@.subrange(0, 4 * i as int) == words_le(self@.subrange(0, i as int)),
                out@.subrange(4 * i as int, n) == old(out)@.subrange(4 * i as int, n),
            decreases 4 - i,
        {
            let ghost before = out@;
            write_le32(out, 4 * i, self.state[i]);
            assert(self@.subrange(0, i + 1).drop_last() =~= self@.subrange(0, i as int));
            assert(out@.subrange(0, 4 * (i + 1)) =~= before.subrange(0, 4 * i as int) + le_bytes(
                self@[i as int],
            ));
            assert(out@.subrange(4 * (i + 1), n) =~= before.subrange(4 * (i + 1), n));
            assert forall|k: int| 4 * (i + 1) <= k < n implies before[k] == old(out)@[k] by {
                assert(before[k] == before.subrange(4 * i as int, n)[k - 4 * i]);
                assert(old(out)@[k] == old(out)@.subrange(4 * i as int, n)[k - 4 * i]);
            }
            assert(before.subrange(4 * (i + 1), n) =~= old(out)@.subrange(4 * (i + 1), n));
            i = i + 1;
        }
        assert(self@.subrange(0, 4) =~= self@);
    }
}

/// An MD5 computation in progress.
pub struct Md5 {
    state: State,
    length: u64,
    buffer: FixedBuffer64,
    input: Ghost<Seq<u8>>,
}

impl View for Md5 {
    type V = Seq<u8>;

    /// All bytes fed so far.
    closed spec fn view(&self) -> Seq<u8> {
        self.input@
    }
}

impl Md5 {
    /// The state has compressed the whole blocks of `m`, and the buffer holds the rest.
    closed spec fn tracks(&self, m: Seq<u8>) -> bool {
        &&& self.buffer.inv()
        &&& self.buffer@ == m.subrange(64 * (m.len() / 64) as int, m.len() as int)
        &&& self.state@.len() == 4
        &&& self.state@ == absorb(md5_init(), md5_f(), m, m.len() / 64)
    }

    pub closed spec fn wf(&self) -> bool {
        &&& self.length as int == self.input@.len()
        &&& self.tracks(self.input@)
    }

    /// The digest size in bits.
    pub fn output_bits() -> (r: usize)
        ensures
            r == 128,
    {
        128
    }

    /// The digest size in bytes.
    pub fn output_bytes() -> (r: usize)
        ensures
            r == 16,
    {
        16
    }

    /// The block size in bytes.
    pub fn block_size() -> (r: usize)
        ensures
            r == 64,
    {
        64
    }
}

impl Digest for Md5 {
    open spec fn well_formed(&self) -> bool {
        self.wf()
    }

    open spec fn digest_of(m: Seq<u8>) -> Seq<u8> {
        md5_digest(m)
    }

    open spec fn digest_len() -> nat {
        16
    }

    fn update(&mut self, input: &[u8]) {
        let ghost m0 = self.input@;
        self.length = self.length + input.len() as u64;
        let n = input.len();
        let mut i: usize = 0;
        assert(input@.subrange(0, 0) =~= Seq::<u8>::empty());
        assert(m0 + input@.subrange(0, 0) =~= m0);
        while i < n
            invariant
                n == input@.len(),
                i <= n,
                self.length as int == m0.len() + n,
                self.input@ == m0 + input@.subrange(0, i as int),
                self.tracks(self.input@),
            decreases n - i,
        {
            let ghost cur = self.input@;
            let ghost q = (cur.len() / 64) as int;
            let end = self.buffer.input_some(input, i);
            let ghost chunk = input@.subrange(i as int, end as int);
            let ghost next = cur + chunk;
            self.input = Ghost(m0 + input@.subrange(0, end as int));
            proof {
                assert(self.input@ =~= next);
                assert(cur.subrange(0, 64 * q) =~= next.subrange(0, 64 * q));
                lemma_absorb_prefix(md5_init(), md5_f(), cur, next, q as nat);
                assert(next.subrange(64 * q, next.len() as int) =~= cur.subrange(
                    64 * q,
                    cur.len() as int,
                ) + chunk);
            }
            if self.buffer.is_full() {
                self.state.process_block(self.buffer.full_buffer());
                self.buffer.clear();
                proof {
                    assert(next.len() == 64 * (q + 1));
                    assert(next.subrange(64 * (q + 1), next.len() as int) =~= Seq::<u8>::empty());
                }
            }
            i = end;
        }
    }

    fn result(self, out: &mut [u8]) {
        let mut st = self;
        let ghost m = st.input@;
        let ghost q = m.len() / 64;
        let ghost s0 = st.state@;
        let bits = st.length.wrapping_mul(8);
        assert(bits == bit_length(m.len()));
        let ghost lf = le_bytes64(bits);
        let ghost rest = m.subrange(64 * q as int, m.len() as int).push(0x80u8);
        proof {
            lemma_final_blocks(md5_init(), md5_f(), m, lf);
        }
        if st.buffer.standard_padding(8) {
            st.state.process_block(st.buffer.full_buffer());
            st.buffer.clear();
            assert(st.state@ == md5_f()(s0, rest + zeros((64 - rest.len()) as nat)));
        }
        let ghost s1 = st.state@;
        let ghost b1 = st.buffer@;
        st.buffer.zero_until(56);
        let len_bytes: Vec<u8> = vec![
            bits as u8,
            (bits >> 8u64) as u8,
            (bits >> 16u64) as u8,
            (bits >> 24u64) as u8,
            (bits >> 32u64) as u8,
            (bits >> 40u64) as u8,
            (bits >> 48u64) as u8,
            (bits >> 56u64) as u8,
        ];
        assert(len_bytes@ =~= lf);
        st.buffer.write_next(len_bytes.as_slice());
        let ghost last = st.buffer@;
        st.state.process_block(st.buffer.full_buffer());
        proof {
            let pm = md5_padded(m);
            if rest.len() > 56 {
                assert(last =~= zeros(56) + lf);
            } else {
                assert(last =~= rest + zeros((56 - rest.len()) as nat) + lf);
            }
            assert(st.state@ == absorb(md5_init(), md5_f(), pm, pm.len() / 64));
        }
        st.state.write_out(out);
    }
}

impl Default for Md5 {
    /// A computation with no input yet.
    fn default() -> (r: Self)
        ensures
            r.wf(),
            r@ == Seq::<u8>::empty(),
    {
        let r = Md5 {
            state: State::new(),
            length: 0,
            buffer: FixedBuffer64::new(),
            input: Ghost(Seq::empty()),
        };
        assert(r.buffer@ =~= Seq::<u8>::empty().subrange(0, 0));
        r
    }
}

} // verus!
