//! The multilinear hasher: every write is multiplied by the next odd value of
//! a small nonlinear generator, and the products are summed.
use vstd::prelude::*;
use vstd::string::StringSliceAdditionalSpecFns;
use vstd::wrapping::u64_specs::{wrapping_add, wrapping_mul};

use crate::mix;
use crate::stream::{high_half, low_half, Write};

verus! {

/// First lane seed of the byte mixer (digits of pi).
pub const SEED1: u64 = 0x243f6a8885a308d3;

/// Second lane seed of the byte mixer.
pub const SEED2: u64 = 0x13198a2e03707344;

/// Initial value of the generator's first word.
pub const SEED3: u64 = 0xa4093822299f31d0;

/// Initial value of the generator's second word.
pub const SEED4: u64 = 0x082efa98ec4e6c89;

/// XOR'ed into every bulk block so that zero bytes do not collapse the lanes.
pub const PREVENT_TRIVIAL_ZERO_COLLAPSE: u64 = 0x452821e638d01377;

/// The digest that this hasher's byte mixer gives a byte string.
pub open spec fn spec_hash_bytes(b: Seq<u8>) -> u64 {
    mix::spec_hash_bytes_with(b, SEED1, SEED2, PREVENT_TRIVIAL_ZERO_COLLAPSE)
}

/// The byte mixer with this hasher's seeds.
pub fn hash_bytes(bytes: &[u8]) -> (r: u64)
    ensures
        r == spec_hash_bytes(bytes@),
{
    mix::hash_bytes_with(bytes, SEED1, SEED2, PREVENT_TRIVIAL_ZERO_COLLAPSE)
}

/// The abstract state of a [`MultilinearHasher`].
pub struct MultilinearState {
    /// The running sum of products.
    pub hash: u64,
    /// The generator's first word, which is also its output.
    pub rng_a: u64,
    /// The generator's second word.
    pub rng_b: u64,
}

impl MultilinearState {
    /// One step of the generator: `rng_b += rng_a`, then
    /// `rng_a ^= rotate_right(rng_b, 27)`; the new `rng_a` is the value.
    pub open spec fn next_rng(self) -> (MultilinearState, u64) {
        let b = wrapping_add(self.rng_b, self.rng_a);
        let a = self.rng_a ^ mix::spec_rotate_right(b, 27);
        (MultilinearState { hash: self.hash, rng_a: a, rng_b: b }, a)
    }

    /// The state after absorbing one word `x`: `x` times the next generator
    /// value with its low bit set, added to the sum.
    pub open spec fn absorb(self, x: u64) -> MultilinearState {
        let (s, r) = self.next_rng();
        MultilinearState { hash: wrapping_add(s.hash, wrapping_mul(x, r | 1)), ..s }
    }

    /// The digest of the state: the sum itself.
    pub open spec fn digest(self) -> u64 {
        self.hash
    }

    /// The state after one write call.
    pub open spec fn apply(self, w: Write) -> MultilinearState {
        match w {
            Write::Bytes(b) => self.absorb(spec_hash_bytes(b)),
            Write::Word(x) => self.absorb(x),
            Write::Wide(i) => self.absorb(low_half(i)).absorb(high_half(i)),
            Write::LengthPrefix => self,
        }
    }

    /// The state after the write calls of `ws`, in order.
    pub open spec fn apply_all(self, ws: Seq<Write>) -> MultilinearState
        decreases ws.len(),
    {
        if ws.len() == 0 {
            self
        } else {
            self.apply(ws[0]).apply_all(ws.drop_first())
        }
    }
}

/// Determinism: hashers built from the same seed and given the same
/// sequence of write calls, of any kinds, end with the same digest.
pub proof fn lemma_deterministic(a: u64, b: u64, ws: Seq<Write>)
    requires
        a == b,
    ensures
        seeded_state(a).apply_all(ws).digest() == seeded_state(b).apply_all(ws).digest(),
{
}

/// The state that `with_seed(seed)` builds: the seed XOR'ed into the zero
/// sum and into both generator words.
pub open spec fn seeded_state(seed: u64) -> MultilinearState {
    MultilinearState { hash: 0u64 ^ seed, rng_a: seed ^ SEED3, rng_b: seed ^ SEED4 }
}

/// Fast, non-collision-resistant streaming hasher with a multilinear sum.
#[derive(Clone, Copy, Debug)]
pub struct MultilinearHasher {
    hash: u64,
    rng_a: u64,
    rng_b: u64,
}

impl View for MultilinearHasher {
    type V = MultilinearState;

    closed spec fn view(&self) -> MultilinearState {
        MultilinearState { hash: self.hash, rng_a: self.rng_a, rng_b: self.rng_b }
    }
}

impl Default for MultilinearHasher {
    fn default() -> (r: Self)
        ensures
            r@ == seeded_state(0),
    {
        assert(0u64 ^ 0u64 == 0u64 && 0u64 ^ SEED3 == SEED3 && 0u64 ^ SEED4 == SEED4) by (bit_vector);
        MultilinearHasher { hash: 0, rng_a: SEED3, rng_b: SEED4 }
    }
}

impl MultilinearHasher {
    /// A hasher whose sum starts at `seed` and whose generator starts from
    /// `seed` XOR'ed into its seeds. Folding the seed into the sum as well
    /// keeps two seeds apart even on a zero word, which the generator alone
    /// cannot do (zero times any multiplier is zero).
    pub fn with_seed(seed: usize) -> (r: Self)
        ensures
            r@ == seeded_state(seed as u64),
    {
        MultilinearHasher {
            hash: 0u64 ^ seed as u64,
            rng_a: seed as u64 ^ SEED3,
            rng_b: seed as u64 ^ SEED4,
        }
    }

    /// Steps the generator. It is a poor generator, but it is nonlinear,
    /// which keeps the hash from collapsing to a plain weighted sum.
    fn gen_rng(&mut self) -> (r: u64)
        ensures
            final(self)@ == old(self)@.next_rng().0,
            r == old(self)@.next_rng().1,
    {
        self.rng_b = self.rng_b.wrapping_add(self.rng_a);
        self.rng_a = self.rng_a ^ mix::rotate_right(self.rng_b, 27);
        self.rng_a
    }

    /// Multiplies `x` by the next generator value (made odd, so that the
    /// product loses no bits) and adds it to the sum.
    fn add_to_hash(&mut self, x: u64)
        ensures
            final(self)@ == old(self)@.absorb(x),
    {
        let r = self.gen_rng();
        let h = x.wrapping_mul(r | 1);
        self.hash = self.hash.wrapping_add(h);
    }

    /// Absorbs the digest of a byte string.
    pub fn write(&mut self, bytes: &[u8])
        ensures
            final(self)@ == old(self)@.apply(Write::Bytes(bytes@)),
    {
        let h = hash_bytes(bytes);
        self.add_to_hash(h);
    }

    pub fn write_u8(&mut self, i: u8)
        ensures
            final(self)@ == old(self)@.apply(Write::Word(i as u64)),
    {
        self.add_to_hash(i as u64);
    }

    pub fn write_u16(&mut self, i: u16)
        ensures
            final(self)@ == old(self)@.apply(Write::Word(i as u64)),
    {
        self.add_to_hash(i as u64);
    }

    pub fn write_u32(&mut self, i: u32)
        ensures
            final(self)@ == old(self)@.apply(Write::Word(i as u64)),
    {
        self.add_to_hash(i as u64);
    }

    pub fn write_u64(&mut self, i: u64)
        ensures
            final(self)@ == old(self)@.apply(Write::Word(i)),
    {
        self.add_to_hash(i);
    }

    /// Absorbs `i` widened to 64 bits, whatever the width of `usize`.
    pub fn write_usize(&mut self, i: usize)
        ensures
            final(self)@ == old(self)@.apply(Write::Word(i as u64)),
    {
        self.add_to_hash(i as u64);
    }

    /// This hasher has no two-word step: a `u128` is absorbed as two words,
    /// the low half first, then the high half.
    pub fn write_u128(&mut self, i: u128)
        ensures
            final(self)@ == old(self)@.apply(Write::Wide(i)),
    {
        let (lo, hi) = crate::stream::split_u128(i);
        self.add_to_hash(lo);
        self.add_to_hash(hi);
    }

    /// Writes no length: byte strings already fold their length into their
    /// digest.
    pub fn write_length_prefix(&mut self, len: usize)
        ensures
            final(self)@ == old(self)@.apply(Write::LengthPrefix),
    {
    }

    /// Absorbs the UTF-8 bytes of `s`, with no prefix or terminator.
    pub fn write_str(&mut self, s: &str)
        ensures
            final(self)@ == old(self)@.apply(Write::Bytes(s.spec_bytes())),
    {
        self.write(s.as_bytes());
    }

    /// The digest of everything written so far; the state is left as it is.
    pub fn finish(&self) -> (r: u64)
        ensures
            r == self@.digest(),
    {
        self.hash
    }
}

impl core::hash::Hasher for MultilinearHasher {
    fn write(&mut self, bytes: &[u8]) {
        MultilinearHasher::write(self, bytes);
    }

    fn write_u8(&mut self, i: u8) {
        MultilinearHasher::write_u8(self, i);
    }

    fn write_u16(&mut self, i: u16) {
        MultilinearHasher::write_u16(self, i);
    }

    fn write_u32(&mut self, i: u32) {
        MultilinearHasher::write_u32(self, i);
    }

    fn write_u64(&mut self, i: u64) {
        MultilinearHasher::write_u64(self, i);
    }

    fn write_u128(&mut self, i: u128) {
        MultilinearHasher::write_u128(self, i);
    }

    fn write_usize(&mut self, i: usize) {
        MultilinearHasher::write_usize(self, i);
    }

    fn finish(&self) -> u64 {
        MultilinearHasher::finish(self)
    }
}

} // verus!
