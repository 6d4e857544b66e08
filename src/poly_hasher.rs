//! The polynomial hasher: a linear-congruential accumulator,
//! `hash = (hash + x) * K` for every word `x`.
use vstd::prelude::*;
use vstd::string::StringSliceAdditionalSpecFns;
use vstd::wrapping::u64_specs::{wrapping_add, wrapping_mul};

use crate::mix;
use crate::stream::{high_half, low_half, Write};

verus! {

/// First lane seed of the byte mixer (digits of pi).
pub const SEED1: u64 = 0x243f6a8885a308d3;

/// Second lane seed of the byte mixer.
pub const SEED2: u64 = 0x13198a2e03707344;

/// XOR'ed into every bulk block so that zero bytes do not collapse the lanes.
pub const PREVENT_TRIVIAL_ZERO_COLLAPSE: u64 = 0xa4093822299f31d0;

/// The odd multiplier of the accumulator, one of the spectrally good
/// congruential multipliers of Steele and Vigna ("Computationally Easy,
/// Spectrally Good Multipliers for Congruential Pseudorandom Number
/// Generators").
pub const K: u64 = 0xf1357aea2e62a9c5;

/// The inverse of `K` modulo 2^64.
pub const K_INVERSE: u64 = 0x781494a55daaed0d;

/// How far `finish` rotates the accumulator left.
pub const FINISH_ROTATION: u64 = 20;

/// The digest that this hasher's byte mixer gives a byte string.
pub open spec fn spec_hash_bytes(b: Seq<u8>) -> u64 {
    mix::spec_hash_bytes_with(b, SEED1, SEED2, PREVENT_TRIVIAL_ZERO_COLLAPSE)
}

/// The byte mixer with this hasher's seeds.
pub fn hash_bytes(bytes: &[u8]) -> (r: u64)
    ensures
        r == spec_hash_bytes(bytes@),
{
    mix::hash_bytes_with(bytes, SEED1, SEED2, PREVENT_TRIVIAL_ZERO_COLLAPSE)
}

/// The abstract state of a [`PolyHasher`].
pub struct PolyState {
    /// The accumulator.
    pub hash: u64,
}

impl PolyState {
    /// The state after absorbing one word `x`: `(hash + x) * K`, wrapping.
    pub open spec fn absorb(self, x: u64) -> PolyState {
        PolyState { hash: wrapping_mul(wrapping_add(self.hash, x), K) }
    }

    /// The digest of the state: the accumulator rotated left by 20 bits.
    /// The multiplications leave the most entropy in the top bits, and most
    /// hash tables pick a bucket from the bottom bits, so the rotation moves
    /// the top down (good for tables of up to 2^20 buckets).
    pub open spec fn digest(self) -> u64 {
        mix::spec_rotate_left(self.hash, FINISH_ROTATION)
    }

    /// The state after one write call.
    pub open spec fn apply(self, w: Write) -> PolyState {
        match w {
            Write::Bytes(b) => self.absorb(spec_hash_bytes(b)),
            Write::Word(x) => self.absorb(x),
            Write::Wide(i) => self.absorb(low_half(i)).absorb(high_half(i)),
            Write::LengthPrefix => self,
        }
    }

    /// The state after the write calls of `ws`, in order.
    pub open spec fn apply_all(self, ws: Seq<Write>) -> PolyState
        decreases ws.len(),
    {
        if ws.len() == 0 {
            self
        } else {
            self.apply(ws[0]).apply_all(ws.drop_first())
        }
    }
}

/// Absorbing a word never merges two distinct states: `+ x` is a bijection
/// modulo 2^64, and so is `* K`, since `K` is odd.
pub proof fn lemma_absorb_injective(s: PolyState, t: PolyState, x: u64)
    requires
        s != t,
    ensures
        s.absorb(x) != t.absorb(x),
{
    let p = wrapping_add(s.hash, x);
    let q = wrapping_add(t.hash, x);
    assert(wrapping_mul(wrapping_mul(p, K), K_INVERSE) == p) by (bit_vector);
    assert(wrapping_mul(wrapping_mul(q, K), K_INVERSE) == q) by (bit_vector);
}

/// The state that `with_seed(seed)` builds: the seed XOR'ed into the zero
/// accumulator.
pub open spec fn seeded_state(seed: u64) -> PolyState {
    PolyState { hash: 0u64 ^ seed }
}

/// A write call of any kind never merges two distinct states.
pub proof fn lemma_apply_injective(s: PolyState, t: PolyState, w: Write)
    requires
        s != t,
    ensures
        s.apply(w) != t.apply(w),
{
    match w {
        Write::Bytes(b) => lemma_absorb_injective(s, t, spec_hash_bytes(b)),
        Write::Word(x) => lemma_absorb_injective(s, t, x),
        Write::Wide(i) => {
            lemma_absorb_injective(s, t, low_half(i));
            lemma_absorb_injective(s.absorb(low_half(i)), t.absorb(low_half(i)), high_half(i));
        },
        Write::LengthPrefix => {},
    }
}

/// The same sequence of write calls never merges two distinct states.
pub proof fn lemma_apply_all_injective(s: PolyState, t: PolyState, ws: Seq<Write>)
    requires
        s != t,
    ensures
        s.apply_all(ws) != t.apply_all(ws),
    decreases ws.len(),
{
    if ws.len() > 0 {
        lemma_apply_injective(s, t, ws[0]);
        lemma_apply_all_injective(s.apply(ws[0]), t.apply(ws[0]), ws.drop_first());
    }
}

/// Determinism: hashers built from the same seed and given the same
/// sequence of write calls, of any kinds, end with the same digest.
pub proof fn lemma_deterministic(a: u64, b: u64, ws: Seq<Write>)
    requires
        a == b,
    ensures
        seeded_state(a).apply_all(ws).digest() == seeded_state(b).apply_all(ws).digest(),
{
}

/// Seed sensitivity: hashers built from two different seeds give different
/// digests after any sequence of write calls, the empty one and every single
/// byte included.
pub proof fn lemma_seeds_stay_apart(a: u64, b: u64, ws: Seq<Write>)
    requires
        a != b,
    ensures
        seeded_state(a).apply_all(ws).digest() != seeded_state(b).apply_all(ws).digest(),
{
    assert(0u64 ^ a != 0u64 ^ b) by (bit_vector)
        requires
            a != b,
    ;
    lemma_apply_all_injective(seeded_state(a), seeded_state(b), ws);
    let x = seeded_state(a).apply_all(ws).hash;
    let y = seeded_state(b).apply_all(ws).hash;
    assert(mix::spec_rotate_left(x, 20) != mix::spec_rotate_left(y, 20)) by (bit_vector)
        requires
            x != y,
    ;
}

/// Fast, non-collision-resistant streaming hasher with a polynomial
/// accumulator.
#[derive(Clone, Copy, Debug)]
pub struct PolyHasher {
    hash: u64,
}

impl View for PolyHasher {
    type V = PolyState;

    closed spec fn view(&self) -> PolyState {
        PolyState { hash: self.hash }
    }
}

impl Default for PolyHasher {
    fn default() -> (r: Self)
        ensures
            r@ == seeded_state(0),
    {
        assert(0u64 ^ 0u64 == 0u64) by (bit_vector);
        PolyHasher { hash: 0 }
    }
}

impl PolyHasher {
    /// A hasher whose accumulator starts at `seed`.
    pub fn with_seed(seed: usize) -> (r: Self)
        ensures
            r@ == seeded_state(seed as u64),
    {
        PolyHasher { hash: 0u64 ^ seed as u64 }
    }

    /// Adds `x` to the accumulator and multiplies by `K`.
    fn add_to_hash(&mut self, x: u64)
        ensures
            final(self)@ == old(self)@.absorb(x),
    {
        self.hash = self.hash.wrapping_add(x).wrapping_mul(K);
    }

    /// Absorbs the digest of a byte string.
    pub fn write(&mut self, bytes: &[u8])
        ensures
            final(self)@ == old(self)@.apply(Write::Bytes(bytes@)),
    {
        let h = hash_bytes(bytes);
        self.add_to_hash(h);
    }

    pub fn write_u8(&mut self, i: u8)
        ensures
            final(self)@ == old(self)@.apply(Write::Word(i as u64)),
    {
        self.add_to_hash(i as u64);
    }

    pub fn write_u16(&mut self, i: u16)
        ensures
            final(self)@ == old(self)@.apply(Write::Word(i as u64)),
    {
        self.add_to_hash(i as u64);
    }

    pub fn write_u32(&mut self, i: u32)
        ensures
            final(self)@ == old(self)@.apply(Write::Word(i as u64)),
    {
        self.add_to_hash(i as u64);
    }

    pub fn write_u64(&mut self, i: u64)
        ensures
            final(self)@ == old(self)@.apply(Write::Word(i)),
    {
        self.add_to_hash(i);
    }

    /// Absorbs `i` widened to 64 bits, whatever the width of `usize`.
    pub fn write_usize(&mut self, i: usize)
        ensures
            final(self)@ == old(self)@.apply(Write::Word(i as u64)),
    {
        self.add_to_hash(i as u64);
    }

    /// This hasher has no two-word step: a `u128` is absorbed as two words,
    /// the low half first, then the high half.
    pub fn write_u128(&mut self, i: u128)
        ensures
            final(self)@ == old(self)@.apply(Write::Wide(i)),
    {
        let (lo, hi) = crate::stream::split_u128(i);
        self.add_to_hash(lo);
        self.add_to_hash(hi);
    }

    /// Writes no length: byte strings already fold their length into their
    /// digest.
    pub fn write_length_prefix(&mut self, len: usize)
        ensures
            final(self)@ == old(self)@.apply(Write::LengthPrefix),
    {
    }

    /// Absorbs the UTF-8 bytes of `s`, with no prefix or terminator.
    pub fn write_str(&mut self, s: &str)
        ensures
            final(self)@ == old(self)@.apply(Write::Bytes(s.spec_bytes())),
    {
        self.write(s.as_bytes());
    }

    /// The digest of everything written so far; the state is left as it is.
    pub fn finish(&self) -> (r: u64)
        ensures
            r == self@.digest(),
    {
        mix::rotate_left(self.hash, FINISH_ROTATION)
    }
}

impl core::hash::Hasher for PolyHasher {
    fn write(&mut self, bytes: &[u8]) {
        PolyHasher::write(self, bytes);
    }

    fn write_u8(&mut self, i: u8) {
        PolyHasher::write_u8(self, i);
    }

    fn write_u16(&mut self, i: u16) {
        PolyHasher::write_u16(self, i);
    }

    fn write_u32(&mut self, i: u32) {
        PolyHasher::write_u32(self, i);
    }

    fn write_u64(&mut self, i: u64) {
        PolyHasher::write_u64(self, i);
    }

    fn write_u128(&mut self, i: u128) {
        PolyHasher::write_u128(self, i);
    }

    fn write_usize(&mut self, i: usize) {
        PolyHasher::write_usize(self, i);
    }

    fn finish(&self) -> u64 {
        PolyHasher::finish(self)
    }
}

} // verus!
