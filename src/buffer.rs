use vstd::prelude::*;

verus! {

/// `n` zero bytes.
pub open spec fn zeros(n: nat) -> Seq<u8> {
    Seq::new(n, |i: int| 0u8)
}

/// The chaining state after the first `n` 64-byte blocks of `m`, starting from `init`
/// and applying the compression `f` to each block in turn.
pub open spec fn absorb<S>(init: S, f: spec_fn(S, Seq<u8>) -> S, m: Seq<u8>, n: nat) -> S
    decreases n,
{
    if n == 0 {
        init
    } else {
        f(absorb(init, f, m, (n - 1) as nat), m.subrange(64 * (n - 1), 64 * (n as int)))
    }
}

/// The number of zero bytes that standard padding puts between the `0x80` byte and the
/// 8-byte length field of a message of `len` bytes, so that the whole fills blocks.
pub open spec fn pad_zeros(len: nat) -> nat {
    ((119 - (len % 64) as int) % 64) as nat
}

/// The message with standard padding: the byte `0x80`, zero bytes, then the length field.
pub open spec fn padded(m: Seq<u8>, length_field: Seq<u8>) -> Seq<u8> {
    m + seq![0x80u8] + zeros(pad_zeros(m.len())) + length_field
}

/// The length of a message of `len` bytes in bits, modulo 2^64.
pub open spec fn bit_length(len: nat) -> u64 {
    ((len * 8) % 0x1_0000_0000_0000_0000) as u64
}

/// The chaining state after `n` blocks depends only on the first `n` blocks.
pub proof fn lemma_absorb_prefix<S>(
    init: S,
    f: spec_fn(S, Seq<u8>) -> S,
    a: Seq<u8>,
    b: Seq<u8>,
    n: nat,
)
    requires
        64 * n <= a.len(),
        64 * n <= b.len(),
        a.subrange(0, 64 * (n as int)) == b.subrange(0, 64 * (n as int)),
    ensures
        absorb(init, f, a, n) == absorb(init, f, b, n),
    decreases n,
{
    if n > 0 {
        assert(a.subrange(0, 64 * (n - 1)) =~= b.subrange(0, 64 * (n - 1))) by {
            assert forall|i: int| 0 <= i < 64 * (n - 1) implies a[i] == b[i] by {
                assert(a[i] == a.subrange(0, 64 * (n as int))[i]);
                assert(b[i] == b.subrange(0, 64 * (n as int))[i]);
            }
        }
        assert(a.subrange(64 * (n - 1), 64 * (n as int)) =~= b.subrange(64 * (n - 1), 64 * (n as int))) by {
            assert forall|i: int| 64 * (n - 1) <= i < 64 * n implies a[i] == b[i] by {
                assert(a[i] == a.subrange(0, 64 * (n as int))[i]);
                assert(b[i] == b.subrange(0, 64 * (n as int))[i]);
            }
        }
        lemma_absorb_prefix(init, f, a, b, (n - 1) as nat);
    }
}

/// What the padded message adds to the state of the message's whole blocks: the block
/// made of the partial block, `0x80`, zeros and the length field; or, where the length
/// field does not fit after `0x80`, the block of the partial block, `0x80` and zeros, then
/// a block of zeros and the length field.
pub proof fn lemma_final_blocks<S>(
    init: S,
    f: spec_fn(S, Seq<u8>) -> S,
    m: Seq<u8>,
    length_field: Seq<u8>,
)
    requires
        length_field.len() == 8,
    ensures
        ({
            let q = (m.len() / 64) as int;
            let pm = padded(m, length_field);
            let rest = m.subrange(64 * q, m.len() as int).push(0x80u8);
            let st = absorb(init, f, m, q as nat);
            &&& pm.len() % 64 == 0
            &&& rest.len() > 56 ==> absorb(init, f, pm, pm.len() / 64) == f(
                f(st, rest + zeros((64 - rest.len()) as nat)),
                zeros(56) + length_field,
            )
            &&& rest.len() <= 56 ==> absorb(init, f, pm, pm.len() / 64) == f(
                st,
                rest + zeros((56 - rest.len()) as nat) + length_field,
            )
        }),
{
    let q = (m.len() / 64) as int;
    let r = (m.len() % 64) as int;
    let pm = padded(m, length_field);
    let rest = m.subrange(64 * q, m.len() as int).push(0x80u8);
    let z = pad_zeros(m.len());
    assert(m.len() == 64 * q + r);
    assert(rest.len() == r + 1);
    assert(pm.subrange(0, 64 * q) =~= m.subrange(0, 64 * q));
    lemma_absorb_prefix(init, f, m, pm, q as nat);
    if r + 1 > 56 {
        assert(z == 119 - r);
        assert(pm.len() == 64 * q + 128);
        let b0 = rest + zeros((64 - rest.len()) as nat);
        let b1 = zeros(56) + length_field;
        assert(pm.subrange(64 * q, 64 * q + 64) =~= b0);
        assert(pm.subrange(64 * q + 64, 64 * q + 128) =~= b1);
        assert(pm.len() / 64 == q + 2);
        assert(absorb(init, f, pm, (q + 1) as nat) == f(absorb(init, f, pm, q as nat), b0));
    } else {
        assert(z == 55 - r);
        assert(pm.len() == 64 * q + 64);
        assert(pm.subrange(64 * q, 64 * q + 64) =~= rest + zeros((56 - rest.len()) as nat)
            + length_field);
        assert(pm.len() / 64 == q + 1);
    }
}

/// A buffer of one 64-byte block that collects input until a block is full.
pub struct FixedBuffer64 {
    buffer: Vec<u8>,
    position: usize,
}

impl View for FixedBuffer64 {
    type V = Seq<u8>;

    /// The bytes held.
    closed spec fn view(&self) -> Seq<u8> {
        self.buffer@.subrange(0, self.position as int)
    }
}

impl FixedBuffer64 {
    /// The buffer holds at most one block.
    pub closed spec fn inv(&self) -> bool {
        self.buffer@.len() == 64 && self.position <= 64
    }

    /// An empty buffer.
    pub fn new() -> (r: Self)
        ensures
            r.inv(),
            r@ == Seq::<u8>::empty(),
    {
        let r = FixedBuffer64 { buffer: vec![0u8; 64], position: 0 };
        assert(r@ =~= Seq::<u8>::empty());
        r
    }

    /// Whether a whole block is held.
    pub fn is_full(&self) -> (r: bool)
        requires
            self.inv(),
        ensures
            r == (self@.len() == 64),
    {
        self.position == 64
    }

    /// Appends bytes of `data` from `start` on until the block is full or `data` ends,
    /// and returns where it stopped.
    pub fn input_some(&mut self, data: &[u8], start: usize) -> (end: usize)
        requires
            old(self).inv(),
            old(self)@.len() < 64,
            start < data@.len(),
        ensures
            final(self).inv(),
            end == if data@.len() - start <= 64 - old(self)@.len() {
                data@.len() as int
            } else {
                start + 64 - old(self)@.len()
            },
            final(self)@ == old(self)@ + data@.subrange(start as int, end as int),
    {
        let n = data.len();
        let mut i = start;
        while i < n && self.position < 64
            invariant
                self.inv(),
                start <= i <= n,
                n == data@.len(),
                self.position == old(self)@.len() + (i - start),
                self@ =~= old(self)@ + data@.subrange(start as int, i as int),
            decreases n - i,
        {
            let ghost before = self@;
            self.buffer.set(self.position, data[i]);
            self.position = self.position + 1;
            i = i + 1;
            assert(self@ =~= before.push(data@[i - 1]));
        }
        i
    }

    /// The whole block held.
    pub fn full_buffer(&self) -> (r: &[u8])
        requires
            self.inv(),
            self@.len() == 64,
        ensures
            r@ == self@,
    {
        assert(self@ =~= self.buffer@);
        self.buffer.as_slice()
    }

    /// Empties the buffer.
    pub fn clear(&mut self)
        requires
            old(self).inv(),
        ensures
            final(self).inv(),
            final(self)@ == Seq::<u8>::empty(),
    {
        self.position = 0;
        assert(self@ =~= Seq::<u8>::empty());
    }

    /// Appends zero bytes until `idx` bytes are held.
    pub fn zero_until(&mut self, idx: usize)
        requires
            old(self).inv(),
            old(self)@.len() <= idx <= 64,
        ensures
            final(self).inv(),
            final(self)@ == old(self)@ + zeros((idx - old(self)@.len()) as nat),
    {
        while self.position < idx
            invariant
                self.inv(),
                old(self)@.len() <= self.position <= idx <= 64,
                self@ =~= old(self)@ + zeros((self.position - old(self)@.len()) as nat),
            decreases idx - self.position,
        {
            let ghost before = self@;
            self.buffer.set(self.position, 0);
            self.position = self.position + 1;
            assert(self@ =~= before.push(0u8));
        }
    }

    /// Appends the bytes of `data`, which fit in the block.
    pub fn write_next(&mut self, data: &[u8])
        requires
            old(self).inv(),
            old(self)@.len() + data@.len() <= 64,
        ensures
            final(self).inv(),
            final(self)@ == old(self)@ + data@,
    {
        let mut i: usize = 0;
        while i < data.len()
            invariant
                self.inv(),
                i <= data@.len(),
                self.position == old(self)@.len() + i,
                old(self)@.len() + data@.len() <= 64,
                self@ =~= old(self)@ + data@.subrange(0, i as int),
            decreases data@.len() - i,
        {
            let ghost before = self@;
            self.buffer.set(self.position, data[i]);
            self.position = self.position + 1;
            i = i + 1;
            assert(self@ =~= before.push(data@[i - 1]));
        }
        assert(data@.subrange(0, i as int) =~= data@);
    }

    /// Standard padding, first part: appends `0x80`; where the `reserve` bytes of the length
    /// field no longer fit, fills the block with zeros and returns true, and the caller
    /// takes the full block before it goes on.
    pub fn standard_padding(&mut self, reserve: usize) -> (spilled: bool)
        requires
            old(self).inv(),
            old(self)@.len() < 64,
            reserve < 64,
        ensures
            final(self).inv(),
            spilled == (old(self)@.len() + 1 > 64 - reserve),
            spilled ==> final(self)@ == old(self)@.push(0x80u8) + zeros(
                (63 - old(self)@.len()) as nat,
            ),
            !spilled ==> final(self)@ == old(self)@.push(0x80u8),
    {
        let ghost before = self@;
        self.buffer.set(self.position, 0x80u8);
        self.position = self.position + 1;
        assert(self@ =~= before.push(0x80u8));
        if self.position > 64 - reserve {
            self.zero_until(64);
            true
        } else {
            false
        }
    }
}

} // verus!
