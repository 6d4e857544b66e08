//! The additive hasher: every write is mixed with the next word of a stream
//! drawn from a fixed entropy table, and the results are summed.
use vstd::prelude::*;
use vstd::string::StringSliceAdditionalSpecFns;
use vstd::wrapping::u64_specs::wrapping_add;

use crate::mix;
use crate::stream::{high_half, low_half, Write};

verus! {

/// Random bits (the fractional hexadecimal digits of pi) that the stream adds
/// up, one word per write. They keep the sum of mixed writes free of trivial
/// swap collisions: `mix(a) + mix(b)` would equal `mix(b) + mix(a)`, but
/// `mix(a, k0) + mix(b, k1)` does not equal `mix(b, k0) + mix(a, k1)`.
pub const ENTROPY: [u64; 16] = [
    0x243f6a8885a308d3,
    0x13198a2e03707344,
    0xa4093822299f31d0,
    0x082efa98ec4e6c89,
    0x452821e638d01377,
    0xbe5466cf34e90c6c,
    0xc0ac29b7c97c50dd,
    0x3f84d5b5b5470917,
    0x9216d5d98979fb1b,
    0xd1310ba698dfb5ac,
    0x2ffd72dbd01adfb7,
    0xb8e1afed6a267e96,
    0xba7c9045f12c7f99,
    0x24a19947b3916cf7,
    0x0801f2e2858efc16,
    0x636920d871574e69,
];

/// First lane seed of the byte mixer (further digits of pi).
pub const SEED1: u64 = 0xa458fea3f4933d7e;

/// Second lane seed of the byte mixer.
pub const SEED2: u64 = 0x0d95748f728eb658;

/// XOR'ed into every bulk block so that zero bytes do not collapse the lanes.
pub const PREVENT_TRIVIAL_ZERO_COLLAPSE: u64 = 0x718bcd5882154aee;

/// The digest that this hasher's byte mixer gives a byte string.
pub open spec fn spec_hash_bytes(b: Seq<u8>) -> u64 {
    mix::spec_hash_bytes_with(b, SEED1, SEED2, PREVENT_TRIVIAL_ZERO_COLLAPSE)
}

/// The byte mixer with this hasher's seeds.
pub fn hash_bytes(bytes: &[u8]) -> (r: u64)
    ensures
        r == spec_hash_bytes(bytes@),
{
    mix::hash_bytes_with(bytes, SEED1, SEED2, PREVENT_TRIVIAL_ZERO_COLLAPSE)
}

/// The abstract state of a [`MumAddHasher`].
pub struct MumAddState {
    /// The running sum of mixed writes.
    pub hash: u64,
    /// The current word of the entropy stream.
    pub rng: u64,
    /// Where the stream reads the entropy table next (taken modulo 16).
    pub entropy_idx: nat,
}

impl MumAddState {
    /// One step of the entropy stream: the next table word is added to `rng`,
    /// which is also the step's value.
    pub open spec fn next_rng(self) -> (MumAddState, u64) {
        let idx = self.entropy_idx % 16;
        let rng = wrapping_add(self.rng, ENTROPY@[idx as int]);
        (MumAddState { hash: self.hash, rng, entropy_idx: (idx + 1) as nat }, rng)
    }

    /// The state after absorbing one word `x`: `x` is mixed with the next
    /// stream value and added to the sum.
    pub open spec fn absorb(self, x: u64) -> MumAddState {
        let (s, r) = self.next_rng();
        MumAddState { hash: wrapping_add(s.hash, mix::spec_multiply_mix(x, r)), ..s }
    }

    /// The state after absorbing two words at once: each is XOR'ed with its
    /// own stream value, the two are mixed together and added to the sum.
    pub open spec fn absorb_pair(self, x: u64, y: u64) -> MumAddState {
        let (s1, r1) = self.next_rng();
        let (s2, r2) = s1.next_rng();
        MumAddState { hash: wrapping_add(s2.hash, mix::spec_multiply_mix(x ^ r1, y ^ r2)), ..s2 }
    }

    /// The digest of the state: the sum itself.
    pub open spec fn digest(self) -> u64 {
        self.hash
    }

    /// The state after one write call.
    pub open spec fn apply(self, w: Write) -> MumAddState {
        match w {
            Write::Bytes(b) => self.absorb(spec_hash_bytes(b)),
            Write::Word(x) => self.absorb(x),
            Write::Wide(i) => self.absorb_pair(low_half(i), high_half(i)),
            Write::LengthPrefix => self,
        }
    }

    /// The state after the write calls of `ws`, in order.
    pub open spec fn apply_all(self, ws: Seq<Write>) -> MumAddState
        decreases ws.len(),
    {
        if ws.len() == 0 {
            self
        } else {
            self.apply(ws[0]).apply_all(ws.drop_first())
        }
    }
}

/// Determinism: hashers built from the same seed and given the same
/// sequence of write calls, of any kinds, end with the same digest.
pub proof fn lemma_deterministic(a: u64, b: u64, ws: Seq<Write>)
    requires
        a == b,
    ensures
        seeded_state(a).apply_all(ws).digest() == seeded_state(b).apply_all(ws).digest(),
{
}

/// The state that `with_seed(seed)` builds: the seed in both the sum and the
/// stream.
pub open spec fn seeded_state(seed: u64) -> MumAddState {
    MumAddState { hash: seed, rng: seed, entropy_idx: 0 }
}

/// Fast, non-collision-resistant streaming hasher with an additive structure.
#[derive(Clone, Copy, Debug)]
pub struct MumAddHasher {
    hash: u64,
    rng: u64,
    entropy_idx: usize,
}

impl View for MumAddHasher {
    type V = MumAddState;

    closed spec fn view(&self) -> MumAddState {
        MumAddState { hash: self.hash, rng: self.rng, entropy_idx: self.entropy_idx as nat }
    }
}

impl Default for MumAddHasher {
    fn default() -> (r: Self)
        ensures
            r@ == seeded_state(0),
    {
        MumAddHasher { hash: 0, rng: 0, entropy_idx: 0 }
    }
}

impl MumAddHasher {
    /// A hasher whose sum and stream both start at `seed`.
    pub fn with_seed(seed: usize) -> (r: Self)
        ensures
            r@ == seeded_state(seed as u64),
    {
        MumAddHasher { hash: seed as u64, rng: seed as u64, entropy_idx: 0 }
    }

    /// Draws the next value of the entropy stream.
    ///
    /// This stands in for a real generator at no cost: once the table is used
    /// up the stream wraps around and becomes predictable, but few hashes get
    /// that far, and `multiply_mix` avalanches what small regularities remain.
    fn gen_rng(&mut self) -> (r: u64)
        ensures
            final(self)@ == old(self)@.next_rng().0,
            r == old(self)@.next_rng().1,
    {
        self.entropy_idx = self.entropy_idx % 16;
        self.rng = self.rng.wrapping_add(ENTROPY[self.entropy_idx]);
        self.entropy_idx = self.entropy_idx + 1;
        self.rng
    }

    /// Mixes `x` with the stream and adds it to the sum.
    fn add_to_hash(&mut self, x: u64)
        ensures
            final(self)@ == old(self)@.absorb(x),
    {
        let r = self.gen_rng();
        let h = mix::multiply_mix(x, r);
        self.hash = self.hash.wrapping_add(h);
    }

    /// Mixes `x` and `y` with two stream values and adds the result to the sum.
    fn double_add_to_hash(&mut self, x: u64, y: u64)
        ensures
            final(self)@ == old(self)@.absorb_pair(x, y),
    {
        let r1 = self.gen_rng();
        let r2 = self.gen_rng();
        let h = mix::multiply_mix(x ^ r1, y ^ r2);
        self.hash = self.hash.wrapping_add(h);
    }

    /// Absorbs the digest of a byte string.
    pub fn write(&mut self, bytes: &[u8])
        ensures
            final(self)@ == old(self)@.apply(Write::Bytes(bytes@)),
    {
        let h = hash_bytes(bytes);
        self.add_to_hash(h);
    }

    pub fn write_u8(&mut self, i: u8)
        ensures
            final(self)@ == old(self)@.apply(Write::Word(i as u64)),
    {
        self.add_to_hash(i as u64);
    }

    pub fn write_u16(&mut self, i: u16)
        ensures
            final(self)@ == old(self)@.apply(Write::Word(i as u64)),
    {
        self.add_to_hash(i as u64);
    }

    pub fn write_u32(&mut self, i: u32)
        ensures
            final(self)@ == old(self)@.apply(Write::Word(i as u64)),
    {
        self.add_to_hash(i as u64);
    }

    pub fn write_u64(&mut self, i: u64)
        ensures
            final(self)@ == old(self)@.apply(Write::Word(i)),
    {
        self.add_to_hash(i);
    }

    /// Absorbs `i` widened to 64 bits, whatever the width of `usize`.
    pub fn write_usize(&mut self, i: usize)
        ensures
            final(self)@ == old(self)@.apply(Write::Word(i as u64)),
    {
        self.add_to_hash(i as u64);
    }

    /// Absorbs the low and the high 64-bit halves of `i` in one two-word step.
    pub fn write_u128(&mut self, i: u128)
        ensures
            final(self)@ == old(self)@.apply(Write::Wide(i)),
    {
        let (lo, hi) = crate::stream::split_u128(i);
        self.double_add_to_hash(lo, hi);
    }

    /// Writes no length: byte strings already fold their length into their
    /// digest.
    pub fn write_length_prefix(&mut self, len: usize)
        ensures
            final(self)@ == old(self)@.apply(Write::LengthPrefix),
    {
    }

    /// Absorbs the UTF-8 bytes of `s`, with no prefix or terminator.
    pub fn write_str(&mut self, s: &str)
        ensures
            final(self)@ == old(self)@.apply(Write::Bytes(s.spec_bytes())),
    {
        self.write(s.as_bytes());
    }

    /// The digest of everything written so far; the state is left as it is.
    pub fn finish(&self) -> (r: u64)
        ensures
            r == self@.digest(),
    {
        self.hash
    }
}

impl core::hash::Hasher for MumAddHasher {
    fn write(&mut self, bytes: &[u8]) {
        MumAddHasher::write(self, bytes);
    }

    fn write_u8(&mut self, i: u8) {
        MumAddHasher::write_u8(self, i);
    }

    fn write_u16(&mut self, i: u16) {
        MumAddHasher::write_u16(self, i);
    }

    fn write_u32(&mut self, i: u32) {
        MumAddHasher::write_u32(self, i);
    }

    fn write_u64(&mut self, i: u64) {
        MumAddHasher::write_u64(self, i);
    }

    fn write_u128(&mut self, i: u128) {
        MumAddHasher::write_u128(self, i);
    }

    fn write_usize(&mut self, i: usize) {
        MumAddHasher::write_usize(self, i);
    }

    fn finish(&self) -> u64 {
        MumAddHasher::finish(self)
    }
}

} // verus!
