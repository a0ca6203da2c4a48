use vstd::prelude::*;

use crate::digest::Digest;
use crate::buffer::{
    absorb, bit_length, lemma_absorb_prefix, lemma_final_blocks, padded, zeros, FixedBuffer64,
};
use crate::bytes::{
    be_bytes, be_bytes64, be_word_at, read_be32, rotate_left, rotl, words_be, write_be32,
};

verus! {

/// Word `t` of the 80-word message schedule of a block: the 16 big-endian words of the
/// block, then each word the XOR of the words 3, 8, 14 and 16 places back, rotated by one.
pub open spec fn sha1_w(block: Seq<u8>, t: nat) -> u32
    decreases t,
{
    if t < 16 {
        be_word_at(block, 4 * (t as int))
    } else {
        rotl(
            sha1_w(block, (t - 3) as nat) ^ sha1_w(block, (t - 8) as nat) ^ sha1_w(
                block,
                (t - 14) as nat,
            ) ^ sha1_w(block, (t - 16) as nat),
            1,
        )
    }
}

/// The boolean function of step `t`: choice, parity, majority, parity.
pub open spec fn sha1_fn(t: int, b: u32, c: u32, d: u32) -> u32 {
    if t < 20 {
        (b & c) | (!b & d)
    } else if t < 40 {
        b ^ c ^ d
    } else if t < 60 {
        (b & c) | (b & d) | (c & d)
    } else {
        b ^ c ^ d
    }
}

/// The constant of step `t`, one for each stage of 20 steps.
pub open spec fn sha1_k(t: int) -> u32 {
    if t < 20 {
        0x5a827999
    } else if t < 40 {
        0x6ed9eba1
    } else if t < 60 {
        0x8f1bbcdc
    } else {
        0xca62c1d6
    }
}

/// One step on the working words `(a, b, c, d, e)`: the new `a` is
/// `rotl(a, 5) + fn(b, c, d) + e + constant + word`, `b` becomes `rotl(b, 30)`, and the
/// words move along.
pub open spec fn sha1_step(v: (u32, u32, u32, u32, u32), block: Seq<u8>, t: int) -> (
    u32,
    u32,
    u32,
    u32,
    u32,
) {
    let tmp = rotl(v.0, 5).wrapping_add(sha1_fn(t, v.1, v.2, v.3)).wrapping_add(v.4).wrapping_add(
        sha1_k(t),
    ).wrapping_add(sha1_w(block, t as nat));
    (tmp, v.0, rotl(v.1, 30), v.2, v.3)
}

/// The working words after the first `n` steps.
pub open spec fn sha1_steps(v: (u32, u32, u32, u32, u32), block: Seq<u8>, n: nat) -> (
    u32,
    u32,
    u32,
    u32,
    u32,
)
    decreases n,
{
    if n == 0 {
        v
    } else {
        sha1_step(sha1_steps(v, block, (n - 1) as nat), block, n - 1)
    }
}

/// The SHA-1 compression function: 80 steps, then each state word plus its working word.
pub open spec fn sha1_compress(st: Seq<u32>, block: Seq<u8>) -> Seq<u32> {
    let v = sha1_steps((st[0], st[1], st[2], st[3], st[4]), block, 80);
    seq![
        st[0].wrapping_add(v.0),
        st[1].wrapping_add(v.1),
        st[2].wrapping_add(v.2),
        st[3].wrapping_add(v.3),
        st[4].wrapping_add(v.4),
    ]
}

/// The compression function as a value.
pub open spec fn sha1_f() -> spec_fn(Seq<u32>, Seq<u8>) -> Seq<u32> {
    |st: Seq<u32>, block: Seq<u8>| sha1_compress(st, block)
}

/// The initial state of SHA-1.
pub open spec fn sha1_init() -> Seq<u32> {
    seq![0x67452301u32, 0xefcdab89u32, 0x98badcfeu32, 0x10325476u32, 0xc3d2e1f0u32]
}

/// The message with SHA-1's padding: the length field is the bit length, big-endian.
pub open spec fn sha1_padded(m: Seq<u8>) -> Seq<u8> {
    padded(m, be_bytes64(bit_length(m.len())))
}

/// The SHA-1 digest of `m`: the final state, each word big-endian.
pub open spec fn sha1_digest(m: Seq<u8>) -> Seq<u8> {
    let pm = sha1_padded(m);
    words_be(absorb(sha1_init(), sha1_f(), pm, pm.len() / 64))
}

fn sha1_fn_of(t: usize, b: u32, c: u32, d: u32) -> (r: u32)
    ensures
        r == sha1_fn(t as int, b, c, d),
{
    if t < 20 {
        (b & c) | (!b & d)
    } else if t < 40 {
        b ^ c ^ d
    } else if t < 60 {
        (b & c) | (b & d) | (c & d)
    } else {
        b ^ c ^ d
    }
}

fn sha1_k_of(t: usize) -> (r: u32)
    ensures
        r == sha1_k(t as int),
{
    if t < 20 {
        0x5a827999
    } else if t < 40 {
        0x6ed9eba1
    } else if t < 60 {
        0x8f1bbcdc
    } else {
        0xca62c1d6
    }
}

/// The SHA-1 compression function on `state` (5 words) and one 64-byte block.
pub fn compress(state: &mut [u32], input: &[u8])
    requires
        old(state)@.len() == 5,
        input@.len() == 64,
    ensures
        final(state)@ == sha1_compress(old(state)@, input@),
{
    let mut w: Vec<u32> = Vec::new();
    let mut t: usize = 0;
    while t < 80
        invariant
            t <= 80,
            input@.len() == 64,
            w@.len() == t,
            forall|x: int| 0 <= x < t ==> w@[x] == sha1_w(input@, x as nat),
        decreases 80 - t,
    {
        if t < 16 {
            w.push(read_be32(input, 4 * t));
        } else {
            let x = w[t - 3] ^ w[t - 8] ^ w[t - 14] ^ w[t - 16];
            w.push(rotate_left(x, 1));
        }
        t = t + 1;
    }
    let ghost v0 = (state[0], state[1], state[2], state[3], state[4]);
    let mut v = (state[0], state[1], state[2], state[3], state[4]);
    let mut j: usize = 0;
    while j < 80
        invariant
            j <= 80,
            w@.len() == 80,
            forall|x: int| 0 <= x < 80 ==> w@[x] == sha1_w(input@, x as nat),
            v == sha1_steps(v0, input@, j as nat),
        decreases 80 - j,
    {
        let tmp = rotate_left(v.0, 5).wrapping_add(sha1_fn_of(j, v.1, v.2, v.3)).wrapping_add(
            v.4,
        ).wrapping_add(sha1_k_of(j)).wrapping_add(w[j]);
        v = (tmp, v.0, rotate_left(v.1, 30), v.2, v.3);
        j = j + 1;
    }
    state[0] = state[0].wrapping_add(v.0);
    state[1] = state[1].wrapping_add(v.1);
    state[2] = state[2].wrapping_add(v.2);
    state[3] = state[3].wrapping_add(v.3);
    state[4] = state[4].wrapping_add(v.4);
    assert(state@ =~= sha1_compress(old(state)@, input@));
}

/// The chaining state of SHA-1: five words.
pub struct State {
    state: Vec<u32>,
}

impl View for State {
    type V = Seq<u32>;

    closed spec fn view(&self) -> Seq<u32> {
        self.state@
    }
}

impl State {
    /// The initial state.
    pub fn new() -> (r: Self)
        ensures
            r@ == sha1_init(),
    {
        let r = State {
            state: vec![0x67452301u32, 0xefcdab89u32, 0x98badcfeu32, 0x10325476u32, 0xc3d2e1f0u32],
        };
        assert(r@ =~= sha1_init());
        r
    }

    /// Compresses one 64-byte block into the state.
    pub fn process_block(&mut self, input: &[u8])
        requires
            old(self)@.len() == 5,
            input@.len() == 64,
        ensures
            final(self)@ == sha1_compress(old(self)@, input@),
            final(self)@.len() == 5,
    {
        compress(self.state.as_mut_slice(), input);
    }

    /// Writes the state, each word big-endian, into the first 20 bytes of `out`.
    fn write_out(&self, out: &mut [u8])
        requires
            self@.len() == 5,
            old(out)@.len() >= 20,
        ensures
            final(out)@.len() == old(out)@.len(),
            final(out)@.subrange(0, 20) == words_be(self@),
            final(out)@.subrange(20, old(out)@.len() as int) == old(out)@.subrange(
                20,
                old(out)@.len() as int,
            ),
    {
        let ghost n = out@.len() as int;
        let mut i: usize = 0;
        assert(out@.subrange(0, 0) =~= words_be(self@.subrange(0, 0)));
        while i < 5
            invariant
                self@.len() == 5,
                i <= 5,
                out@.len() == n,
                old(out)@.len() == n,
                n >= 20,
                out@.subrange(0, 4 * i as int) == words_be(self@.subrange(0, i as int)),
                out@.subrange(4 * i as int, n) == old(out)@.subrange(4 * i as int, n),
            decreases 5 - i,
        {
            let ghost before = out@;
            write_be32(out, 4 * i, self.state[i]);
            assert(self@.subrange(0, i + 1).drop_last() =~= self@.subrange(0, i as int));
            assert(out@.subrange(0, 4 * (i + 1)) =~= before.subrange(0, 4 * i as int) + be_bytes(
                self@[i as int],
            ));
            assert(out@.subrange(4 * (i + 1), n) =~= before.subrange(4 * (i + 1), n));
            assert forall|k: int| 4 * (i + 1) <= k < n implies before[k] == old(out)@[k] by {
                assert(before[k] == before.subrange(4 * i as int, n)[k - 4 * i]);
                assert(old(out)@[k] == old(out)@.subrange(4 * i as int, n)[k - 4 * i]);
            }
            assert(before.subrange(4 * (i + 1), n) =~= old(out)@.subrange(4 * (i + 1), n));
            i = i + 1;
        }
        assert(self@.subrange(0, 5) =~= self@);
    }
}

/// An SHA-1 computation in progress.
pub struct Sha1 {
    state: State,
    length: u64,
    buffer: FixedBuffer64,
    input: Ghost<Seq<u8>>,
}

impl View for Sha1 {
    type V = Seq<u8>;

    /// All bytes fed so far.
    closed spec fn view(&self) -> Seq<u8> {
        self.input@
    }
}

impl Sha1 {
    /// The state has compressed the whole blocks of `m`, and the buffer holds the rest.
    closed spec fn tracks(&self, m: Seq<u8>) -> bool {
        &&& self.buffer.inv()
        &&& self.buffer@ == m.subrange(64 * (m.len() / 64) as int, m.len() as int)
        &&& self.state@.len() == 5
        &&& self.state@ == absorb(sha1_init(), sha1_f(), m, m.len() / 64)
    }

    pub closed spec fn wf(&self) -> bool {
        &&& self.length as int == self.input@.len()
        &&& self.tracks(self.input@)
    }

    /// The digest size in bits.
    pub fn output_bits() -> (r: usize)
        ensures
            r == 160,
    {
        160
    }

    /// The digest size in bytes.
    pub fn output_bytes() -> (r: usize)
        ensures
            r == 20,
    {
        20
    }

    /// The block size in bytes.
    pub fn block_size() -> (r: usize)
        ensures
            r == 64,
    {
        64
    }
}

impl Digest for Sha1 {
    open spec fn well_formed(&self) -> bool {
        self.wf()
    }

    open spec fn digest_of(m: Seq<u8>) -> Seq<u8> {
        sha1_digest(m)
    }

    open spec fn digest_len() -> nat {
        20
    }

    fn update(&mut self, input: &[u8]) {
        let ghost m0 = self.input@;
        self.length = self.length + input.len() as u64;
        let n = input.len();
        let mut i: usize = 0;
        assert(input@.subrange(0, 0) =~= Seq::<u8>::empty());
        assert(m0 + input@.subrange(0, 0) =~= m0);
        while i < n
            invariant
                n == input@.len(),
                i <= n,
                self.length as int == m0.len() + n,
                self.input@ == m0 + input@.subrange(0, i as int),
                self.tracks(self.input@),
            decreases n - i,
        {
            let ghost cur = self.input@;
            let ghost q = (cur.len() / 64) as int;
            let end = self.buffer.input_some(input, i);
            let ghost chunk = input@.subrange(i as int, end as int);
            let ghost next = cur + chunk;
            self.input = Ghost(m0 + input@.subrange(0, end as int));
            proof {
                assert(self.input@ =~= next);
                assert(cur.subrange(0, 64 * q) =~= next.subrange(0, 64 * q));
                lemma_absorb_prefix(sha1_init(), sha1_f(), cur, next, q as nat);
                assert(next.subrange(64 * q, next.len() as int) =~= cur.subrange(
                    64 * q,
                    cur.len() as int,
                ) + chunk);
            }
            if self.buffer.is_full() {
                self.state.process_block(self.buffer.full_buffer());
                self.buffer.clear();
                proof {
                    assert(next.len() == 64 * (q + 1));
                    assert(next.subrange(64 * (q + 1), next.len() as int) =~= Seq::<u8>::empty());
                }
            }
            i = end;
        }
    }

    fn result(self, out: &mut [u8]) {
        let mut st = self;
        let ghost m = st.input@;
        let ghost q = m.len() / 64;
        let ghost s0 = st.state@;
        let bits = st.length.wrapping_mul(8);
        assert(bits == bit_length(m.len()));
        let ghost lf = be_bytes64(bits);
        let ghost rest = m.subrange(64 * q as int, m.len() as int).push(0x80u8);
        proof {
            lemma_final_blocks(sha1_init(), sha1_f(), m, lf);
        }
        if st.buffer.standard_padding(8) {
            st.state.process_block(st.buffer.full_buffer());
            st.buffer.clear();
            assert(st.state@ == sha1_f()(s0, rest + zeros((64 - rest.len()) as nat)));
        }
        let ghost s1 = st.state@;
        let ghost b1 = st.buffer@;
        st.buffer.zero_until(56);
        let len_bytes: Vec<u8> = vec![
            (bits >> 56u64) as u8,
            (bits >> 48u64) as u8,
            (bits >> 40u64) as u8,
            (bits >> 32u64) as u8,
            (bits >> 24u64) as u8,
            (bits >> 16u64) as u8,
            (bits >> 8u64) as u8,
            bits as u8,
        ];
        assert(len_bytes@ =~= lf);
        st.buffer.write_next(len_bytes.as_slice());
        let ghost last = st.buffer@;
        st.state.process_block(st.buffer.full_buffer());
        proof {
            let pm = sha1_padded(m);
            if rest.len() > 56 {
                assert(last =~= zeros(56) + lf);
            } else {
                assert(last =~= rest + zeros((56 - rest.len()) as nat) + lf);
            }
            assert(st.state@ == absorb(sha1_init(), sha1_f(), pm, pm.len() / 64));
        }
        st.state.write_out(out);
    }
}

impl Default for Sha1 {
    /// A computation with no input yet.
    fn default() -> (r: Self)
        ensures
            r.wf(),
            r@ == Seq::<u8>::empty(),
    {
        let r = Sha1 {
            state: State::new(),
            length: 0,
            buffer: FixedBuffer64::new(),
            input: Ghost(Seq::empty()),
        };
        assert(r.buffer@ =~= Seq::<u8>::empty().subrange(0, 0));
        r
    }
}

} // verus!
