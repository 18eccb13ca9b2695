use vstd::prelude::*;

verus! {

// The expander combines a ChaCha20 generator (rand_chacha) with an AES-256
// keystream in 64-bit big-endian counter mode (aes + ctr). Verus cannot look
// inside either value, so each is modelled by uninterpreted spec functions
// that name the seed or key it was built from and the number of stream bytes
// it has handed out so far, and every method the library calls goes through
// a trusted wrapper whose contract is stated over those names.

#[verifier::external_type_specification]
#[verifier::external_body]
pub struct ExChaCha20Rng(rand_chacha::ChaCha20Rng);

/// An AES-256 cipher in 64-bit big-endian counter mode, together with the
/// byte-level buffering wrapper that the `ctr` crate builds it from. The
/// concrete type, `ctr::Ctr64BE<aes::Aes256>`, carries type-level integers
/// that Verus refuses to declare, so the value is held opaquely in a
/// private field and spoken of only through `ctr_key`, `ctr_iv` and
/// `ctr_pos`.
#[verifier::external_body]
pub struct CtrKeystream {
    inner: ctr::Ctr64BE<aes::Aes256>,
}

/// Byte `i` of the ChaCha20 output stream for a 32-byte seed, in the order
/// `ChaCha20Rng::fill_bytes` hands the stream out.
pub uninterp spec fn chacha_byte(seed: Seq<u8>, i: nat) -> u8;

/// The seed a `ChaCha20Rng` was built from.
pub uninterp spec fn rng_seed(rng: rand_chacha::ChaCha20Rng) -> Seq<u8>;

/// How many bytes of its stream a `ChaCha20Rng` has consumed. The generator
/// hands bytes out in whole 32-bit words, so a fill whose length is not a
/// multiple of four consumes up to the next word boundary.
pub uninterp spec fn rng_pos(rng: rand_chacha::ChaCha20Rng) -> nat;

/// Byte `i` of the AES-256-CTR keystream for a 32-byte key and 16-byte IV.
pub uninterp spec fn aes_ctr_byte(key: Seq<u8>, iv: Seq<u8>, i: nat) -> u8;

/// The key a `CtrKeystream` was built from.
pub uninterp spec fn ctr_key(c: CtrKeystream) -> Seq<u8>;

/// The IV a `CtrKeystream` was built from.
pub uninterp spec fn ctr_iv(c: CtrKeystream) -> Seq<u8>;

/// How many keystream bytes a `CtrKeystream` has applied so far.
pub uninterp spec fn ctr_pos(c: CtrKeystream) -> nat;

/// `n` rounded up to a whole number of 4-byte words.
pub open spec fn round_to_words(n: nat) -> nat {
    ((n + 3) / 4) * 4
}

/// Positions stay far below this bound, which keeps the AES counter well
/// away from exhaustion: a fresh `CtrKeystream` starts with counter zero and
/// has nearly `2^64` 16-byte blocks before it.
pub const STREAM_POS_LIMIT: u64 = 0x4000_0000_0000;

/// Byte `i` of the pad material: ChaCha20 output XOR AES-CTR keystream, the
/// two-generator composition that defines the pad. An adversary must break
/// both sources to recover any byte.
pub open spec fn pad_byte(key: Seq<u8>, iv: Seq<u8>, i: nat) -> u8 {
    chacha_byte(key, i) ^ aes_ctr_byte(key, iv, i)
}

/// Relies on rand_chacha's `ChaCha20Rng::from_seed`: a deterministic
/// generator positioned at the start of the stream for this seed.
#[verifier::external_body]
fn chacha_from_seed(seed: &Vec<u8>) -> (rng: rand_chacha::ChaCha20Rng)
    requires
        seed@.len() == 32,
    ensures
        rng_seed(rng) == seed@,
        rng_pos(rng) == 0,
{
    let mut s = [0u8; 32];
    s.copy_from_slice(seed.as_slice());
    <rand_chacha::ChaCha20Rng as rand::SeedableRng>::from_seed(s)
}

/// Relies on `ChaCha20Rng::fill_bytes` (rand_core's `BlockRng`): fills the
/// buffer with the next bytes of the seeded stream. The generator consumes
/// whole 32-bit words, so the consumed position advances to the next word
/// boundary when the buffer length is not a multiple of four.
#[verifier::external_body]
fn chacha_fill(rng: &mut rand_chacha::ChaCha20Rng, buf: &mut Vec<u8>)
    requires
        rng_pos(*old(rng)) % 4 == 0,
    ensures
        rng_seed(*final(rng)) == rng_seed(*old(rng)),
        rng_pos(*final(rng)) == rng_pos(*old(rng)) + round_to_words(old(buf)@.len()),
        final(buf)@.len() == old(buf)@.len(),
        forall|i: int|
            0 <= i < old(buf)@.len() ==> final(buf)@[i] == chacha_byte(
                rng_seed(*old(rng)),
                (rng_pos(*old(rng)) + i) as nat,
            ),
{
    <rand_chacha::ChaCha20Rng as rand::RngCore>::fill_bytes(rng, buf.as_mut_slice());
}

/// Relies on `ctr::Ctr64BE::<aes::Aes256>::new` (cipher's `KeyIvInit`): a
/// fresh CTR keystream for this key and IV, with block counter zero and
/// byte position zero.
#[verifier::external_body]
fn ctr_keystream_new(key: &Vec<u8>, iv: &Vec<u8>) -> (c: CtrKeystream)
    requires
        key@.len() == 32,
        iv@.len() == 16,
    ensures
        ctr_key(c) == key@,
        ctr_iv(c) == iv@,
        ctr_pos(c) == 0,
{
    let k = ctr::cipher::generic_array::GenericArray::from_slice(key.as_slice());
    let n = ctr::cipher::generic_array::GenericArray::from_slice(iv.as_slice());
    CtrKeystream { inner: <ctr::Ctr64BE<aes::Aes256> as ctr::cipher::KeyIvInit>::new(k, n) }
}

/// Relies on cipher's `StreamCipher::apply_keystream` for
/// `ctr::Ctr64BE<aes::Aes256>`: XORs the buffer in place with the next
/// keystream bytes, keeping the byte position exactly across calls. It can
/// fail only when the keystream nears exhaustion after almost `2^64`
/// blocks, which the position bound rules out.
#[verifier::external_body]
fn ctr_keystream_apply(c: &mut CtrKeystream, buf: &mut Vec<u8>)
    requires
        ctr_pos(*old(c)) + old(buf)@.len() <= STREAM_POS_LIMIT,
    ensures
        ctr_key(*final(c)) == ctr_key(*old(c)),
        ctr_iv(*final(c)) == ctr_iv(*old(c)),
        ctr_pos(*final(c)) == ctr_pos(*old(c)) + old(buf)@.len(),
        final(buf)@.len() == old(buf)@.len(),
        forall|i: int|
            0 <= i < old(buf)@.len() ==> final(buf)@[i] == (old(buf)@[i] ^ aes_ctr_byte(
                ctr_key(*old(c)),
                ctr_iv(*old(c)),
                (ctr_pos(*old(c)) + i) as nat,
            )),
{
    ctr::cipher::StreamCipher::apply_keystream(&mut c.inner, buf.as_mut_slice());
}

/// A vector of `n` zero bytes.
pub(crate) fn zero_vec(n: usize) -> (v: Vec<u8>)
    ensures
        v@.len() == n,
{
    let mut v: Vec<u8> = Vec::new();
    while v.len() < n
        invariant
            v@.len() <= n,
        decreases n - v@.len(),
    {
        v.push(0u8);
    }
    v
}

proof fn lemma_round_add(p: nat, n: nat)
    requires
        p % 4 == 0,
    ensures
        p + round_to_words(n) == round_to_words(p + n),
{
    assert(p + ((n + 3) / 4) * 4 == ((p + n + 3) / 4) * 4) by (nonlinear_arith)
        requires
            p % 4 == 0,
    ;
}

/// Expands a 32-byte key and 16-byte IV into the pad keystream, in bounded
/// chunks whose placement does not change the bytes: byte `i` of the output
/// is always `pad_byte(key, iv, i)`.
pub struct KeystreamExpander {
    rng: rand_chacha::ChaCha20Rng,
    cipher: CtrKeystream,
}

impl KeystreamExpander {
    /// The key both internal generators were seeded with.
    pub closed spec fn key(self) -> Seq<u8> {
        rng_seed(self.rng)
    }

    /// The IV of the counter-mode generator.
    pub closed spec fn iv(self) -> Seq<u8> {
        ctr_iv(self.cipher)
    }

    /// How many bytes of the pad stream have been produced.
    pub closed spec fn pos(self) -> nat {
        ctr_pos(self.cipher)
    }

    /// Both generators hold the same key and have advanced together, so the
    /// next chunk continues the stream exactly where the last one ended.
    pub closed spec fn wf(self) -> bool {
        &&& ctr_key(self.cipher) == rng_seed(self.rng)
        &&& rng_seed(self.rng).len() == 32
        &&& ctr_iv(self.cipher).len() == 16
        &&& rng_pos(self.rng) == round_to_words(ctr_pos(self.cipher))
    }

    pub fn new(key: &Vec<u8>, iv: &Vec<u8>) -> (r: Self)
        requires
            key@.len() == 32,
            iv@.len() == 16,
        ensures
            r.wf(),
            r.key() == key@,
            r.iv() == iv@,
            r.pos() == 0,
    {
        let rng = chacha_from_seed(key);
        let cipher = ctr_keystream_new(key, iv);
        KeystreamExpander { rng, cipher }
    }

    /// The next `n` bytes of the pad stream. A chunk whose length is not a
    /// multiple of four leaves the stream position unaligned, so it must be
    /// the last one taken.
    pub fn next_chunk(&mut self, n: usize) -> (chunk: Vec<u8>)
        requires
            old(self).wf(),
            old(self).pos() % 4 == 0,
            old(self).pos() + n <= STREAM_POS_LIMIT,
        ensures
            final(self).wf(),
            final(self).key() == old(self).key(),
            final(self).iv() == old(self).iv(),
            final(self).pos() == old(self).pos() + n,
            chunk@.len() == n,
            forall|i: int|
                0 <= i < n ==> chunk@[i] == pad_byte(
                    old(self).key(),
                    old(self).iv(),
                    (old(self).pos() + i) as nat,
                ),
    {
        let ghost start = ctr_pos(self.cipher);
        proof {
            // An aligned position rounds to itself, so both generators stand
            // at the same stream byte.
            assert(round_to_words(start) == start);
        }
        let mut buf = zero_vec(n);
        chacha_fill(&mut self.rng, &mut buf);
        ctr_keystream_apply(&mut self.cipher, &mut buf);
        proof {
            lemma_round_add(start, n as nat);
        }
        buf
    }
}

/// Expands `length` pad bytes in one call, producing them in chunks of
/// `chunk_size` bytes. The contract pins every byte to `pad_byte`
/// independently of `chunk_size`: chunk boundary placement cannot change
/// the output. The whole result is held in memory, so this form is for
/// moderate lengths; `KeystreamExpander::next_chunk` streams.
pub fn expand(key: &Vec<u8>, iv: &Vec<u8>, length: usize, chunk_size: usize) -> (out: Vec<u8>)
    requires
        key@.len() == 32,
        iv@.len() == 16,
        1 <= chunk_size,
        chunk_size % 4 == 0,
        length <= STREAM_POS_LIMIT,
    ensures
        out@.len() == length,
        forall|i: int| 0 <= i < length ==> out@[i] == pad_byte(key@, iv@, i as nat),
{
    let mut expander = KeystreamExpander::new(key, iv);
    let mut out: Vec<u8> = Vec::new();
    while out.len() < length
        invariant
            expander.wf(),
            expander.key() == key@,
            expander.iv() == iv@,
            expander.pos() == out@.len(),
            out@.len() <= length,
            out@.len() % 4 == 0 || out@.len() == length,
            length <= STREAM_POS_LIMIT,
            1 <= chunk_size,
            chunk_size % 4 == 0,
            forall|i: int| 0 <= i < out@.len() ==> out@[i] == pad_byte(key@, iv@, i as nat),
        decreases length - out@.len(),
    {
        let remaining = length - out.len();
        let n = if remaining < chunk_size {
            remaining
        } else {
            chunk_size
        };
        let mut chunk = expander.next_chunk(n);
        out.append(&mut chunk);
    }
    out
}

/// Chunk invariance: two expansions of the same length from the same key
/// and IV yield byte-identical output, whatever chunk sizes each used;
/// every byte is pinned to `pad_byte` of its index alone.
pub proof fn lemma_chunk_invariance(a: Seq<u8>, b: Seq<u8>, key: Seq<u8>, iv: Seq<u8>, length: nat)
    requires
        a.len() == length,
        b.len() == length,
        forall|i: int| 0 <= i < length ==> a[i] == pad_byte(key, iv, i as nat),
        forall|i: int| 0 <= i < length ==> b[i] == pad_byte(key, iv, i as nat),
    ensures
        a == b,
{
    assert(a =~= b);
}

} // verus!
