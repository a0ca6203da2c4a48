use vstd::prelude::*;
use vstd::arithmetic::power2::pow2;

use crate::bytes::{
    be_bytes, be_word_at, be32, lemma_be_bytes_of_word, lemma_be_word_of_bytes, read_be32,
    write_be32,
};
use crate::pi_tables::{pi_p, pi_p_table, pi_s, pi_s_table};

verus! {

/// Tables of a Blowfish state are well formed: 18 subkeys and four boxes of 256 words.
pub open spec fn wf_tables(t: (Seq<u32>, Seq<u32>)) -> bool {
    t.0.len() == 18 && t.1.len() == 1024
}

/// The round function F: one word from each box, indexed by the bytes of `x`
/// (most significant first), combined as `((S0 + S1) ^ S2) + S3` modulo 2^32.
pub open spec fn feistel_f(s: Seq<u32>, x: u32) -> u32 {
    (s[(x >> 24u32) as int].wrapping_add(s[256 + ((x >> 16u32) & 0xffu32) as int]) ^ s[512 + ((x
        >> 8u32) & 0xffu32) as int]).wrapping_add(s[768 + (x & 0xffu32) as int])
}

/// The first `n` half-rounds of the Feistel network under subkeys `k`: each one XORs the
/// left half with the next subkey, XORs F of the result into the right half, and swaps.
pub open spec fn half_rounds(k: Seq<u32>, s: Seq<u32>, block: (u32, u32), n: nat) -> (u32, u32)
    decreases n,
{
    if n == 0 {
        block
    } else {
        let prev = half_rounds(k, s, block, (n - 1) as nat);
        let l = prev.0 ^ k[n - 1];
        (prev.1 ^ feistel_f(s, l), l)
    }
}

/// The Blowfish network on one block under subkeys `k` taken in the order given:
/// sixteen half-rounds, then the last two subkeys, halves swapped back.
pub open spec fn cipher(k: Seq<u32>, s: Seq<u32>, block: (u32, u32)) -> (u32, u32) {
    let x = half_rounds(k, s, block, 16);
    (x.1 ^ k[17], x.0 ^ k[16])
}

/// The subkeys in the order that decryption uses them.
pub open spec fn reversed_keys(p: Seq<u32>) -> Seq<u32> {
    Seq::new(18, |i: int| p[17 - i])
}

/// The subkeys in the order of encryption, or of decryption when `reverse` holds.
pub open spec fn key_order(p: Seq<u32>, reverse: bool) -> Seq<u32> {
    if reverse {
        reversed_keys(p)
    } else {
        p
    }
}

/// Encryption of a block of two words.
pub open spec fn encrypt_words(t: (Seq<u32>, Seq<u32>), block: (u32, u32)) -> (u32, u32) {
    cipher(t.0, t.1, block)
}

/// Decryption of a block of two words.
pub open spec fn decrypt_words(t: (Seq<u32>, Seq<u32>), block: (u32, u32)) -> (u32, u32) {
    cipher(reversed_keys(t.0), t.1, block)
}

/// The two big-endian words of an 8-byte block.
pub open spec fn block_words(b: Seq<u8>) -> (u32, u32) {
    (be_word_at(b, 0), be_word_at(b, 4))
}

/// The 8 bytes of a block of two words, each big-endian.
pub open spec fn block_bytes(w: (u32, u32)) -> Seq<u8> {
    be_bytes(w.0) + be_bytes(w.1)
}

/// Encryption of an 8-byte block.
pub open spec fn encrypt_bytes(t: (Seq<u32>, Seq<u32>), b: Seq<u8>) -> Seq<u8> {
    block_bytes(encrypt_words(t, block_words(b)))
}

/// Decryption of an 8-byte block.
pub open spec fn decrypt_bytes(t: (Seq<u32>, Seq<u32>), b: Seq<u8>) -> Seq<u8> {
    block_bytes(decrypt_words(t, block_words(b)))
}

/// The `i`-th key word: four bytes of `key` read big-endian, the key repeated as often
/// as needed.
pub open spec fn key_word(key: Seq<u8>, i: int) -> u32 {
    let n = key.len() as int;
    be32(key[(4 * i) % n], key[(4 * i + 1) % n], key[(4 * i + 2) % n], key[(4 * i + 3) % n])
}

/// The subkeys, each XORed with the key word of its position.
pub open spec fn xor_key(p: Seq<u32>, key: Seq<u8>) -> Seq<u32> {
    Seq::new(p.len(), |i: int| p[i] ^ key_word(key, i))
}

/// The `i`-th salt word: the 16-byte salt read as four big-endian words, repeated;
/// zero where there is no salt.
pub open spec fn salt_word(salt: Seq<u8>, i: int) -> u32 {
    if salt.len() == 0 {
        0
    } else {
        be_word_at(salt, 4 * (i % 4))
    }
}

/// The tables, and the last block, after the first `m` of the 521 pairs of table words
/// (9 pairs of subkeys, then 512 pairs of box words) have been overwritten. Each pair
/// is the encryption, under the tables as they stand, of the previous pair XORed with
/// the next two salt words; the first input is the zero block.
pub open spec fn fill_tables(p: Seq<u32>, s: Seq<u32>, salt: Seq<u8>, m: nat) -> (
    Seq<u32>,
    Seq<u32>,
    (u32, u32),
)
    decreases m,
{
    if m == 0 {
        (p, s, (0u32, 0u32))
    } else {
        let prev = fill_tables(p, s, salt, (m - 1) as nat);
        let j = m - 1;
        let input = (prev.2.0 ^ salt_word(salt, 2 * j), prev.2.1 ^ salt_word(salt, 2 * j + 1));
        let out = cipher(prev.0, prev.1, input);
        if j < 9 {
            (prev.0.update(2 * j, out.0).update(2 * j + 1, out.1), prev.1, out)
        } else {
            (prev.0, prev.1.update(2 * j - 18, out.0).update(2 * j - 17, out.1), out)
        }
    }
}

/// The key schedule: the key XORed into the subkeys, then every table word overwritten
/// in turn; with an empty `salt` it is the plain schedule, else the salted one.
pub open spec fn expand(t: (Seq<u32>, Seq<u32>), key: Seq<u8>, salt: Seq<u8>) -> (
    Seq<u32>,
    Seq<u32>,
) {
    let r = fill_tables(xor_key(t.0, key), t.1, salt, 521);
    (r.0, r.1)
}

/// The tables before any key: the digits of pi.
pub open spec fn initial_tables() -> (Seq<u32>, Seq<u32>) {
    (pi_p(), pi_s())
}

/// The tables of Blowfish under `key`.
pub open spec fn keyed_tables(key: Seq<u8>) -> (Seq<u32>, Seq<u32>) {
    expand(initial_tables(), key, Seq::empty())
}

/// Within `n` steps through a sequence of length `n` read round and round, the next
/// position after the one of step `j`.
proof fn lemma_cycle_step(j: int, n: int)
    requires
        n > 0,
        j >= 0,
    ensures
        (j + 1) % n == if j % n + 1 == n {
            0
        } else {
            j % n + 1
        },
{
    vstd::arithmetic::div_mod::lemma_fundamental_div_mod(j, n);
    let q = j / n;
    let r = j % n;
    assert(0 <= r < n) by {
        vstd::arithmetic::div_mod::lemma_mod_bound(j, n);
    }
    if r + 1 == n {
        assert(j + 1 == (q + 1) * n + 0) by (nonlinear_arith)
            requires
                j == n * q + r,
                r + 1 == n,
        ;
        vstd::arithmetic::div_mod::lemma_fundamental_div_mod_converse(j + 1, n, q + 1, 0);
    } else {
        assert(j + 1 == q * n + (r + 1)) by (nonlinear_arith)
            requires
                j == n * q + r,
        ;
        vstd::arithmetic::div_mod::lemma_fundamental_div_mod_converse(j + 1, n, q, r + 1);
    }
}

/// The position after `pos` in a sequence of `n` bytes read round and round.
fn cycle_next(pos: usize, n: usize, Ghost(j): Ghost<int>) -> (r: usize)
    requires
        n > 0,
        j >= 0,
        pos == j % (n as int),
    ensures
        r == (j + 1) % (n as int),
{
    proof {
        lemma_cycle_step(j, n as int);
    }
    if pos + 1 == n {
        0
    } else {
        pos + 1
    }
}

/// `n` rounds of the bcrypt cost loop: the plain schedule under the key, then under the salt.
pub open spec fn stretch(t: (Seq<u32>, Seq<u32>), salt: Seq<u8>, key: Seq<u8>, n: nat) -> (
    Seq<u32>,
    Seq<u32>,
)
    decreases n,
{
    if n == 0 {
        t
    } else {
        let prev = stretch(t, salt, key, (n - 1) as nat);
        expand(expand(prev, key, Seq::empty()), salt, Seq::empty())
    }
}

/// The tables of bcrypt: the salted schedule from the initial tables, then `2^cost`
/// rounds of the cost loop.
pub open spec fn bcrypt_tables(cost: nat, salt: Seq<u8>, key: Seq<u8>) -> (Seq<u32>, Seq<u32>) {
    stretch(expand(initial_tables(), key, salt), salt, key, pow2(cost))
}

/// `block` encrypted `n` times over.
pub open spec fn encrypt_repeated(t: (Seq<u32>, Seq<u32>), block: (u32, u32), n: nat) -> (
    u32,
    u32,
)
    decreases n,
{
    if n == 0 {
        block
    } else {
        encrypt_words(t, encrypt_repeated(t, block, (n - 1) as nat))
    }
}

/// The text that bcrypt encrypts, "OrpheanBeholderScryDoubt", as six big-endian words.
pub open spec fn bcrypt_text() -> Seq<u32> {
    seq![0x4f727068u32, 0x65616e42u32, 0x65686f6cu32, 0x64657253u32, 0x63727944u32, 0x6f756274u32]
}

/// The 24 bytes of bcrypt: each block of the text encrypted 64 times under the bcrypt
/// tables, written out big-endian.
pub open spec fn bcrypt_output(cost: nat, salt: Seq<u8>, key: Seq<u8>) -> Seq<u8> {
    let t = bcrypt_tables(cost, salt, key);
    let c = bcrypt_text();
    block_bytes(encrypt_repeated(t, (c[0], c[1]), 64)) + block_bytes(
        encrypt_repeated(t, (c[2], c[3]), 64),
    ) + block_bytes(encrypt_repeated(t, (c[4], c[5]), 64))
}

proof fn lemma_xor_cancel(a: u32, b: u32)
    ensures
        (a ^ b) ^ b == a,
{
    assert((a ^ b) ^ b == a) by (bit_vector);
}

proof fn lemma_xor_cancel_inner(a: u32, f: u32, b: u32)
    ensures
        ((a ^ f) ^ b) ^ f == a ^ b,
{
    assert(((a ^ f) ^ b) ^ f == a ^ b) by (bit_vector);
}

/// Decryption half-rounds undo encryption half-rounds, last first: after `j` of them,
/// the state of encryption after `16 - j` half-rounds is back, up to two subkeys.
proof fn lemma_undo_half_rounds(k: Seq<u32>, s: Seq<u32>, block: (u32, u32), j: nat)
    requires
        j <= 16,
    ensures
        ({
            let e = half_rounds(k, s, block, 16);
            let m = 16 - j;
            let x = half_rounds(k, s, block, m as nat);
            half_rounds(reversed_keys(k), s, (e.1 ^ k[17], e.0 ^ k[16]), j) == (
                x.1 ^ k[m + 1],
                x.0 ^ k[m],
            )
        }),
    decreases j,
{
    if j > 0 {
        lemma_undo_half_rounds(k, s, block, (j - 1) as nat);
        let m = 16 - j;
        let x = half_rounds(k, s, block, m as nat);
        let y = half_rounds(k, s, block, (m + 1) as nat);
        lemma_xor_cancel(y.1, k[m + 2]);
        lemma_xor_cancel_inner(x.1, feistel_f(s, y.1), k[m + 1]);
    }
}

/// Decrypting an encrypted block of two words gives the block back, whatever the tables.
pub proof fn lemma_decrypt_encrypt_words(t: (Seq<u32>, Seq<u32>), block: (u32, u32))
    ensures
        decrypt_words(t, encrypt_words(t, block)) == block,
{
    lemma_undo_half_rounds(t.0, t.1, block, 16);
    lemma_xor_cancel(block.0, t.0[0]);
    lemma_xor_cancel(block.1, t.0[1]);
}

/// Reading the words of the bytes of a block gives the block.
proof fn lemma_block_words_of_bytes(w: (u32, u32))
    ensures
        block_words(block_bytes(w)) == w,
{
    lemma_be_word_of_bytes(w.0);
    lemma_be_word_of_bytes(w.1);
}

/// Writing the words of an 8-byte block gives the block.
proof fn lemma_block_bytes_of_words(b: Seq<u8>)
    requires
        b.len() == 8,
    ensures
        block_bytes(block_words(b)) == b,
{
    lemma_be_bytes_of_word(b[0], b[1], b[2], b[3]);
    lemma_be_bytes_of_word(b[4], b[5], b[6], b[7]);
    assert(block_bytes(block_words(b)) =~= b);
}

/// Under every key of 4 to 56 bytes, decrypting an encrypted 8-byte block gives the
/// block back.
pub proof fn lemma_decrypt_encrypt(key: Seq<u8>, b: Seq<u8>)
    requires
        4 <= key.len() <= 56,
        b.len() == 8,
    ensures
        decrypt_bytes(keyed_tables(key), encrypt_bytes(keyed_tables(key), b)) == b,
{
    let t = keyed_tables(key);
    let c = encrypt_words(t, block_words(b));
    lemma_block_words_of_bytes(c);
    lemma_decrypt_encrypt_words(t, block_words(b));
    lemma_block_bytes_of_words(b);
}

/// A Blowfish cipher state: the subkeys `p` and the four substitution boxes, stored
/// one after the other in `s`.
pub struct Blowfish {
    s: Vec<u32>,
    p: Vec<u32>,
}

impl View for Blowfish {
    type V = (Seq<u32>, Seq<u32>);

    closed spec fn view(&self) -> (Seq<u32>, Seq<u32>) {
        (self.p@, self.s@)
    }
}

impl Blowfish {
    pub open spec fn wf(&self) -> bool {
        wf_tables(self@)
    }

    fn f(&self, x: u32) -> (r: u32)
        requires
            self.wf(),
        ensures
            r == feistel_f(self@.1, x),
    {
        assert(x >> 24u32 < 256u32) by (bit_vector);
        assert((x >> 16u32) & 0xffu32 < 256u32) by (bit_vector);
        assert((x >> 8u32) & 0xffu32 < 256u32) by (bit_vector);
        assert(x & 0xffu32 < 256u32) by (bit_vector);
        let a = self.s[(x >> 24u32) as usize];
        let b = self.s[256 + ((x >> 16u32) & 0xffu32) as usize];
        let c = self.s[512 + ((x >> 8u32) & 0xffu32) as usize];
        let d = self.s[768 + (x & 0xffu32) as usize];
        (a.wrapping_add(b) ^ c).wrapping_add(d)
    }

    fn subkey(&self, i: usize, reverse: bool) -> (r: u32)
        requires
            self.wf(),
            i < 18,
        ensures
            r == key_order(self@.0, reverse)[i as int],
    {
        if reverse {
            self.p[17 - i]
        } else {
            self.p[i]
        }
    }

    /// The full Blowfish network on one block, with the subkeys forwards or backwards.
    fn round(&self, block: (u32, u32), reverse: bool) -> (r: (u32, u32))
        requires
            self.wf(),
        ensures
            r == cipher(key_order(self@.0, reverse), self@.1, block),
    {
        let ghost k = key_order(self@.0, reverse);
        let ghost s = self@.1;
        let (mut l, mut r) = block;
        let mut i: usize = 0;
        while i < 8
            invariant
                self.wf(),
                k == key_order(self@.0, reverse),
                s == self@.1,
                i <= 8,
                (l, r) == half_rounds(k, s, block, (2 * i) as nat),
            decreases 8 - i,
        {
            l = l ^ self.subkey(2 * i, reverse);
            r = r ^ self.f(l);
            assert((r, l) == half_rounds(k, s, block, (2 * i + 1) as nat));
            r = r ^ self.subkey(2 * i + 1, reverse);
            l = l ^ self.f(r);
            i = i + 1;
        }
        l = l ^ self.subkey(16, reverse);
        r = r ^ self.subkey(17, reverse);
        (r, l)
    }

    /// XORs the key, read round and round, into the subkeys.
    fn xor_key_into_p(&mut self, key: &[u8])
        requires
            old(self).wf(),
            key@.len() > 0,
        ensures
            final(self).wf(),
            final(self)@ == (xor_key(old(self)@.0, key@), old(self)@.1),
    {
        let n = key.len();
        let mut pos: usize = 0;
        let mut i: usize = 0;
        proof {
            vstd::arithmetic::div_mod::lemma_small_mod(0, n as nat);
        }
        while i < 18
            invariant
                self.wf(),
                n == key@.len(),
                n > 0,
                i <= 18,
                pos == (4 * i) % (n as int),
                self@.1 == old(self)@.1,
                forall|j: int| 0 <= j < i ==> self@.0[j] == old(self)@.0[j] ^ key_word(key@, j),
                forall|j: int| i <= j < 18 ==> self@.0[j] == old(self)@.0[j],
            decreases 18 - i,
        {
            let b0 = key[pos];
            let pos1 = cycle_next(pos, n, Ghost(4 * i as int));
            let b1 = key[pos1];
            let pos2 = cycle_next(pos1, n, Ghost(4 * i + 1));
            let b2 = key[pos2];
            let pos3 = cycle_next(pos2, n, Ghost(4 * i + 2));
            let b3 = key[pos3];
            pos = cycle_next(pos3, n, Ghost(4 * i + 3));
            let w = ((b0 as u32) << 24u32) | ((b1 as u32) << 16u32) | ((b2 as u32) << 8u32) | (
            b3 as u32);
            assert(w == key_word(key@, i as int));
            self.p[i] = self.p[i] ^ w;
            i = i + 1;
        }
        assert(self@.0 =~= xor_key(old(self)@.0, key@));
    }

    /// Overwrites all table words in turn, each pair with the encryption of the previous
    /// pair (XORed with the salt, where there is one) under the tables as they stand.
    fn fill(&mut self, salt: &[u8])
        requires
            old(self).wf(),
            salt@.len() == 0 || salt@.len() == 16,
        ensures
            final(self).wf(),
            final(self)@ == ({
                let r = fill_tables(old(self)@.0, old(self)@.1, salt@, 521);
                (r.0, r.1)
            }),
    {
        let ghost t0 = self@;
        let mut l: u32 = 0;
        let mut r: u32 = 0;
        let mut m: usize = 0;
        while m < 521
            invariant
                self.wf(),
                m <= 521,
                salt@.len() == 0 || salt@.len() == 16,
                (self@.0, self@.1, (l, r)) == fill_tables(t0.0, t0.1, salt@, m as nat),
            decreases 521 - m,
        {
            let (sa, sb) = if salt.len() == 0 {
                (0u32, 0u32)
            } else {
                (read_be32(salt, 4 * ((2 * m) % 4)), read_be32(salt, 4 * ((2 * m + 1) % 4)))
            };
            let out = self.round((l ^ sa, r ^ sb), false);
            if m < 9 {
                self.p[2 * m] = out.0;
                self.p[2 * m + 1] = out.1;
            } else {
                self.s[2 * m - 18] = out.0;
                self.s[2 * m - 17] = out.1;
            }
            l = out.0;
            r = out.1;
            m = m + 1;
        }
    }

    /// The plain key schedule.
    fn expand_key(self, key: &[u8]) -> (r: Self)
        requires
            self.wf(),
            key@.len() > 0,
        ensures
            r.wf(),
            r@ == expand(self@, key@, Seq::empty()),
    {
        let mut st = self;
        st.xor_key_into_p(key);
        let no_salt: [u8; 0] = [];
        st.fill(&no_salt);
        assert(no_salt@ =~= Seq::<u8>::empty());
        st
    }

    /// The salted key schedule that bcrypt starts from.
    fn salted_expand_key(self, salt: &[u8], key: &[u8]) -> (r: Self)
        requires
            self.wf(),
            salt@.len() == 16,
            key@.len() > 0,
        ensures
            r.wf(),
            r@ == expand(self@, key@, salt@),
    {
        let mut st = self;
        st.xor_key_into_p(key);
        st.fill(salt);
        st
    }

    /// The tables before any key.
    pub fn init() -> (r: Self)
        ensures
            r.wf(),
            r@ == initial_tables(),
    {
        Blowfish { s: pi_s_table(), p: pi_p_table() }
    }

    /// Blowfish under `key`, which has 4 to 56 bytes.
    pub fn new(key: &[u8]) -> (r: Self)
        requires
            4 <= key@.len() <= 56,
        ensures
            r.wf(),
            r@ == keyed_tables(key@),
    {
        Self::init().expand_key(key)
    }

    fn encrypt_round(&self, block: (u32, u32)) -> (r: (u32, u32))
        requires
            self.wf(),
        ensures
            r == encrypt_words(self@, block),
    {
        self.round(block, false)
    }

    fn decrypt_round(&self, block: (u32, u32)) -> (r: (u32, u32))
        requires
            self.wf(),
        ensures
            r == decrypt_words(self@, block),
    {
        self.round(block, true)
    }

    /// The block size in bytes.
    pub fn block_size() -> (r: usize)
        ensures
            r == 8,
    {
        8
    }

    /// Encrypts the 8 bytes of `input` into the 8 bytes of `output`.
    pub fn encrypt_block(&self, input: &[u8], output: &mut [u8])
        requires
            self.wf(),
            input@.len() == 8,
            old(output)@.len() == 8,
        ensures
            final(output)@ == encrypt_bytes(self@, input@),
    {
        let block = (read_be32(input, 0), read_be32(input, 4));
        let (h, l) = self.encrypt_round(block);
        write_be32(output, 0, h);
        write_be32(output, 4, l);
        assert(output@ =~= block_bytes((h, l)));
    }

    /// Decrypts the 8 bytes of `input` into the 8 bytes of `output`.
    pub fn decrypt_block(&self, input: &[u8], output: &mut [u8])
        requires
            self.wf(),
            input@.len() == 8,
            old(output)@.len() == 8,
        ensures
            final(output)@ == decrypt_bytes(self@, input@),
    {
        let block = (read_be32(input, 0), read_be32(input, 4));
        let (h, l) = self.decrypt_round(block);
        write_be32(output, 0, h);
        write_be32(output, 4, l);
        assert(output@ =~= block_bytes((h, l)));
    }
    /// `block` encrypted 64 times over.
    fn encrypt_64(&self, block: (u32, u32)) -> (r: (u32, u32))
        requires
            self.wf(),
        ensures
            r == encrypt_repeated(self@, block, 64),
    {
        let mut b = block;
        let mut i: usize = 0;
        while i < 64
            invariant
                self.wf(),
                i <= 64,
                b == encrypt_repeated(self@, block, i as nat),
            decreases 64 - i,
        {
            b = self.encrypt_round(b);
            i = i + 1;
        }
        b
    }
}

/// The salted schedule, then `2^cost` rounds of the plain schedule under the key and
/// under the salt.
fn bcrypt_setup(cost: usize, salt: &[u8], key: &[u8]) -> (r: Blowfish)
    requires
        cost < 64,
        salt@.len() == 16,
        key@.len() > 0,
    ensures
        r.wf(),
        r@ == bcrypt_tables(cost as nat, salt@, key@),
{
    let mut state = Blowfish::init().salted_expand_key(salt, key);
    let ghost t0 = state@;
    proof {
        vstd::bits::lemma_u64_pow2_no_overflow(cost as nat);
        vstd::bits::lemma_u64_shl_is_mul(1, cost as u64);
    }
    let rounds: u64 = 1u64 << (cost as u64);
    let mut i: u64 = 0;
    while i < rounds
        invariant
            state.wf(),
            i <= rounds,
            rounds == pow2(cost as nat),
            salt@.len() == 16,
            key@.len() > 0,
            t0 == expand(initial_tables(), key@, salt@),
            state@ == stretch(t0, salt@, key@, i as nat),
        decreases rounds - i,
    {
        state = state.expand_key(key).expand_key(salt);
        i = i + 1;
    }
    state
}

/// bcrypt with cost `cost`: writes the 24 bytes of the hash of `input` (1 to 72 bytes)
/// under the 16-byte `salt` into `output`.
pub fn bcrypt(cost: usize, salt: &[u8], input: &[u8], output: &mut [u8])
    requires
        cost < 64,
        salt@.len() == 16,
        0 < input@.len() <= 72,
        old(output)@.len() == 24,
    ensures
        final(output)@ == bcrypt_output(cost as nat, salt@, input@),
{
    let state = bcrypt_setup(cost, salt, input);
    let b0 = state.encrypt_64((0x4f727068u32, 0x65616e42u32));
    let b1 = state.encrypt_64((0x65686f6cu32, 0x64657253u32));
    let b2 = state.encrypt_64((0x63727944u32, 0x6f756274u32));
    write_be32(output, 0, b0.0);
    write_be32(output, 4, b0.1);
    write_be32(output, 8, b1.0);
    write_be32(output, 12, b1.1);
    write_be32(output, 16, b2.0);
    write_be32(output, 20, b2.1);
    assert(output@ =~= bcrypt_output(cost as nat, salt@, input@));
}

} // verus!
