//! The building blocks shared by every hasher: the folded 64x64->128-bit
//! product and the two-lane byte-string mixer.
use vstd::arithmetic::power::*;
use vstd::prelude::*;

verus! {

/// 2^64, the modulus of 64-bit word arithmetic.
pub open spec fn word_modulus() -> int {
    0x1_0000_0000_0000_0000
}

/// The exact 128-bit product of `x` and `y`, folded to 64 bits by XOR'ing
/// its low half with its high half.
pub open spec fn spec_multiply_mix(x: u64, y: u64) -> u64 {
    let full = x as int * y as int;
    ((full % word_modulus()) as u64) ^ ((full / word_modulus()) as u64)
}

/// Multiplies two words to the full 128-bit product and folds it with XOR.
///
/// The middle bits of the product are the ones that change most with small
/// changes of the inputs: they sit at the top of the low half and the bottom
/// of the high half, so XOR'ing the two halves spreads them over the result.
/// (Folding with `+` or `-` would reduce modulo 2^64 -/+ 1, both of which have
/// small prime factors.)
pub fn multiply_mix(x: u64, y: u64) -> (r: u64)
    ensures
        r == spec_multiply_mix(x, y),
{
    assert(x as int * y as int <= u128::MAX) by (nonlinear_arith)
        requires
            x <= u64::MAX,
            y <= u64::MAX,
    ;
    let full = (x as u128) * (y as u128);
    let lo = full as u64;
    let hi = (full >> 64u32) as u64;
    assert(full as u64 == (full % 0x1_0000_0000_0000_0000) as u64) by (bit_vector);
    assert(full >> 64u32 == full / 0x1_0000_0000_0000_0000) by (bit_vector);
    lo ^ hi
}

/// The number that a byte string encodes in little-endian order:
/// `s[0] + 256 * s[1] + 256^2 * s[2] + ...`.
pub open spec fn le_value(s: Seq<u8>) -> nat
    decreases s.len(),
{
    if s.len() == 0 {
        0
    } else {
        s[0] as nat + 256 * le_value(s.drop_first())
    }
}

/// The little-endian word held by the `n` bytes of `b` that start at `off`.
pub open spec fn le_word(b: Seq<u8>, off: int, n: int) -> u64 {
    le_value(b.subrange(off, off + n)) as u64
}

proof fn lemma_le_value_bound(s: Seq<u8>)
    ensures
        le_value(s) < pow(256, s.len()),
    decreases s.len(),
{
    reveal(pow);
    if s.len() > 0 {
        lemma_le_value_bound(s.drop_first());
        let rest = le_value(s.drop_first());
        let p = pow(256, (s.len() - 1) as nat);
        assert(s[0] as nat + 256 * rest < 256 * p) by (nonlinear_arith)
            requires
                rest < p,
                s[0] < 256,
        ;
    }
}

/// Reads `n <= 8` bytes of `bytes`, from `off` on, as a little-endian word.
fn read_le(bytes: &[u8], off: usize, n: usize) -> (r: u64)
    requires
        off + n <= bytes@.len(),
        n <= 8,
    ensures
        r == le_word(bytes@, off as int, n as int),
{
    let len = bytes.len();
    let mut acc: u64 = 0;
    let mut k: usize = n;
    while k > 0
        invariant
            k <= n,
            n <= 8,
            off + n <= len,
            len == bytes@.len(),
            acc as int == le_value(bytes@.subrange(off + k, off + n)),
        decreases k,
    {
        k -= 1;
        proof {
            let done = bytes@.subrange(off + k + 1, off + n);
            lemma_le_value_bound(done);
            lemma_pow_increases(256, done.len(), 7);
            reveal_with_fuel(pow, 8);
            assert(bytes@.subrange(off + k, off + n).drop_first() =~= done);
        }
        acc = acc * 256 + bytes[off + k] as u64;
    }
    proof {
        lemma_le_value_bound(bytes@.subrange(off as int, off + n));
        lemma_pow_increases(256, n as nat, 8);
        reveal_with_fuel(pow, 9);
    }
    acc
}

/// The lanes after the bulk loop of the byte mixer. While a whole 16-byte
/// block starts at `off` and is not the last 16 bytes, its two little-endian
/// words `x`, `y` turn the lanes `(s0, s1)` into
/// `(s1, multiply_mix(s0 ^ x, guard ^ y))`.
pub open spec fn bulk_lanes(b: Seq<u8>, off: int, s0: u64, s1: u64, guard: u64) -> (u64, u64)
    decreases b.len() - off,
{
    if 0 <= off && off + 16 < b.len() {
        let x = le_word(b, off, 8);
        let y = le_word(b, off + 8, 8);
        bulk_lanes(b, off + 16, s1, spec_multiply_mix(s0 ^ x, guard ^ y), guard)
    } else {
        (s0, s1)
    }
}

/// The two lanes of the byte mixer once every byte of `b` has been folded in,
/// starting from the lanes `(seed0, seed1)`.
pub open spec fn mixed_lanes(b: Seq<u8>, seed0: u64, seed1: u64, guard: u64) -> (u64, u64) {
    let len = b.len() as int;
    if len > 16 {
        let (s0, s1) = bulk_lanes(b, 0, seed0, seed1, guard);
        (s0 ^ le_word(b, len - 16, 8), s1 ^ le_word(b, len - 8, 8))
    } else if len >= 8 {
        (seed0 ^ le_word(b, 0, 8), seed1 ^ le_word(b, len - 8, 8))
    } else if len >= 4 {
        (seed0 ^ le_word(b, 0, 4), seed1 ^ le_word(b, len - 4, 4))
    } else if len > 0 {
        (seed0 ^ (b[0] as u64), seed1 ^ ((b[len - 1] as int * 256 + b[len / 2] as int) as u64))
    } else {
        (seed0, seed1)
    }
}

/// The digest of a byte string: its two lanes mixed together, XOR'ed with
/// its length.
pub open spec fn spec_hash_bytes_with(b: Seq<u8>, seed0: u64, seed1: u64, guard: u64) -> u64 {
    let (s0, s1) = mixed_lanes(b, seed0, seed1, guard);
    spec_multiply_mix(s0, s1) ^ (b.len() as u64)
}

/// Folds a byte string of any length into a 64-bit digest, with two lanes
/// that start at `seed0` and `seed1`. `guard` is XOR'ed into the second word
/// of every bulk block so that runs of zeroes do not collapse the lanes.
///
/// Strings of at most 16 bytes are read from both ends with no loop (the two
/// reads may overlap). Longer strings are consumed 16 bytes at a time, and the
/// last 16 bytes are always folded in at the end, so every byte counts.
pub fn hash_bytes_with(bytes: &[u8], seed0: u64, seed1: u64, guard: u64) -> (r: u64)
    ensures
        r == spec_hash_bytes_with(bytes@, seed0, seed1, guard),
{
    let len = bytes.len();
    let mut s0 = seed0;
    let mut s1 = seed1;
    if len <= 16 {
        if len >= 8 {
            s0 = s0 ^ read_le(bytes, 0, 8);
            s1 = s1 ^ read_le(bytes, len - 8, 8);
        } else if len >= 4 {
            s0 = s0 ^ read_le(bytes, 0, 4);
            s1 = s1 ^ read_le(bytes, len - 4, 4);
        } else if len > 0 {
            let lo = bytes[0];
            let mid = bytes[len / 2];
            let hi = bytes[len - 1];
            let tail = ((hi as u64) << 8u64) | mid as u64;
            assert(tail == (hi as int * 256 + mid as int) as u64) by (bit_vector)
                requires
                    tail == ((hi as u64) << 8u64) | mid as u64,
            ;
            s0 = s0 ^ lo as u64;
            s1 = s1 ^ tail;
        }
    } else {
        // Whole blocks from the front; the last block may overlap the suffix.
        let mut off: usize = 0;
        while off < len - 16
            invariant
                len == bytes@.len(),
                len > 16,
                off <= len,
                bulk_lanes(bytes@, off as int, s0, s1, guard) == bulk_lanes(
                    bytes@,
                    0,
                    seed0,
                    seed1,
                    guard,
                ),
            decreases len - off,
        {
            let x = read_le(bytes, off, 8);
            let y = read_le(bytes, off + 8, 8);
            // The lanes run as two independent streams: s1 takes the mix of
            // s0 and the block, s0 takes the old s1.
            let t = multiply_mix(s0 ^ x, guard ^ y);
            s0 = s1;
            s1 = t;
            off += 16;
        }
        s0 = s0 ^ read_le(bytes, len - 16, 8);
        s1 = s1 ^ read_le(bytes, len - 8, 8);
    }
    multiply_mix(s0, s1) ^ len as u64
}

/// `x` rotated right by `k` bits, for `0 < k < 64`.
pub open spec fn spec_rotate_right(x: u64, k: u64) -> u64 {
    (x >> k) | (x << ((64 - k) as u64))
}

/// `x` rotated left by `k` bits, for `0 < k < 64`.
pub open spec fn spec_rotate_left(x: u64, k: u64) -> u64 {
    (x << k) | (x >> ((64 - k) as u64))
}

/// Rotates `x` right by `k` bits.
pub fn rotate_right(x: u64, k: u64) -> (r: u64)
    requires
        0 < k < 64,
    ensures
        r == spec_rotate_right(x, k),
{
    (x >> k) | (x << (64 - k))
}

/// Rotates `x` left by `k` bits.
pub fn rotate_left(x: u64, k: u64) -> (r: u64)
    requires
        0 < k < 64,
    ensures
        r == spec_rotate_left(x, k),
{
    (x << k) | (x >> (64 - k))
}

/// Length sensitivity: two byte strings of different lengths that leave the
/// lanes equal (as zero-padding of a short string can) still get different
/// digests, because the length is XOR'ed in last.
pub proof fn lemma_length_folded_in(a: Seq<u8>, b: Seq<u8>, seed0: u64, seed1: u64, guard: u64)
    requires
        mixed_lanes(a, seed0, seed1, guard) == mixed_lanes(b, seed0, seed1, guard),
        a.len() != b.len(),
        a.len() <= u64::MAX,
        b.len() <= u64::MAX,
    ensures
        spec_hash_bytes_with(a, seed0, seed1, guard) != spec_hash_bytes_with(b, seed0, seed1, guard),
{
    let (s0, s1) = mixed_lanes(a, seed0, seed1, guard);
    let m = spec_multiply_mix(s0, s1);
    let la = a.len() as u64;
    let lb = b.len() as u64;
    assert(m ^ la != m ^ lb) by (bit_vector)
        requires
            la != lb,
    ;
}

/// Zero bytes do not collapse: the empty string, one zero byte and six zero
/// bytes get three different digests, whatever the seeds.
pub proof fn lemma_zero_strings_apart(seed0: u64, seed1: u64, guard: u64)
    ensures
        ({
            let e = spec_hash_bytes_with(seq![], seed0, seed1, guard);
            let one = spec_hash_bytes_with(seq![0u8], seed0, seed1, guard);
            let six = spec_hash_bytes_with(seq![0u8, 0, 0, 0, 0, 0], seed0, seed1, guard);
            e != one && e != six && one != six
        }),
{
    let e: Seq<u8> = seq![];
    let one: Seq<u8> = seq![0u8];
    let six: Seq<u8> = seq![0u8, 0, 0, 0, 0, 0];
    assert(six.subrange(0, 4) =~= seq![0u8, 0, 0, 0]);
    assert(six.subrange(2, 6) =~= seq![0u8, 0, 0, 0]);
    assert(le_value(seq![0u8, 0, 0, 0]) == 0) by {
        let z: Seq<u8> = seq![0u8, 0, 0, 0];
        assert(z.drop_first() =~= seq![0u8, 0, 0]);
        assert(z.drop_first().drop_first() =~= seq![0u8, 0]);
        assert(z.drop_first().drop_first().drop_first() =~= seq![0u8]);
        assert(z.drop_first().drop_first().drop_first().drop_first() =~= Seq::<u8>::empty());
        reveal_with_fuel(le_value, 5);
    }
    assert(seed0 ^ 0u64 == seed0 && seed1 ^ 0u64 == seed1) by (bit_vector);
    assert((0int * 256 + 0int) as u64 == 0u64);
    assert(mixed_lanes(one, seed0, seed1, guard) == mixed_lanes(e, seed0, seed1, guard));
    assert(mixed_lanes(six, seed0, seed1, guard) == mixed_lanes(e, seed0, seed1, guard));
    lemma_length_folded_in(e, one, seed0, seed1, guard);
    lemma_length_folded_in(e, six, seed0, seed1, guard);
    lemma_length_folded_in(one, six, seed0, seed1, guard);
}

} // verus!
