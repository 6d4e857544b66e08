use rustc_hash::MumAddHasher;
use std::hash::{Hash, Hasher};

#[test]
fn mum_golden_values() {
    let mut h = MumAddHasher::default();
    h.write_u8(0);
    assert_eq!(h.finish(), 0);
    let mut h = MumAddHasher::default();
    h.write_u8(1);
    assert_eq!(h.finish(), 2611923443488327891);
    let mut h = MumAddHasher::default();
    h.write_u8(100);
    assert_eq!(h.finish(), 2937927316899066466);
    let mut h = MumAddHasher::default();
    h.write_u8(u8::MAX);
    assert_eq!(h.finish(), 1957691435979753993);
    let mut h = MumAddHasher::default();
    h.write_u16(u16::MAX);
    assert_eq!(h.finish(), 5064609056638882578);
    let mut h = MumAddHasher::default();
    h.write_u32(u32::MAX);
    assert_eq!(h.finish(), 7017626686621719973);
    let mut h = MumAddHasher::default();
    h.write_u64(u64::MAX);
    assert_eq!(h.finish(), 18446744073709551615);
    let mut h = MumAddHasher::default();
    h.write_u128(0);
    assert_eq!(h.finish(), 12905635952968891229);
    let mut h = MumAddHasher::default();
    h.write_u128(1);
    assert_eq!(h.finish(), 8837596610787346294);
    let mut h = MumAddHasher::default();
    h.write_u128(u128::MAX);
    assert_eq!(h.finish(), 13571955942395577181);
    let mut h = MumAddHasher::default();
    h.write(b"uwu");
    assert_eq!(h.finish(), 1831930803547716108);
    let mut h = MumAddHasher::default();
    h.write(b"These are some bytes for testing rustc_hash.");
    assert_eq!(h.finish(), 9904318210718017759);
}

#[test]
fn mum_long_write_sequence() {
    let mut h = MumAddHasher::with_seed(7);
    h.write_u8(1);
    h.write_u16(2);
    h.write(b"ab");
    h.write_u32(3);
    h.write_u128((5u128 << 64) | 7);
    for i in 0..20u64 {
        h.write_u64(i);
    }
    assert_eq!(h.finish(), 13810670029896087005);
}

#[test]
fn mum_default_is_seed_zero() {
    let mut a = MumAddHasher::default();
    let mut b = MumAddHasher::with_seed(0);
    assert_eq!(a.finish(), b.finish());
    a.write(b"abc");
    b.write(b"abc");
    a.write_u32(9);
    b.write_u32(9);
    assert_eq!(a.finish(), b.finish());
}

#[test]
fn mum_is_deterministic() {
    let run = |seed: usize| {
        let mut h = MumAddHasher::with_seed(seed);
        h.write_u64(0xdead_beef);
        h.write(b"some bytes");
        h.write_str("text");
        h.write_usize(17);
        h.finish()
    };
    for seed in [0usize, 1, 42, usize::MAX] {
        assert_eq!(run(seed), run(seed));
    }
    assert_eq!(run(3), 6965486142249077876);
}

#[test]
fn mum_seeds_separate_single_bytes() {
    let seeds = [[1, 2], [42, 17], [124436707, 99237], [usize::MIN, usize::MAX]];
    for [a_seed, b_seed] in seeds {
        for x in u8::MIN..=u8::MAX {
            let mut a = MumAddHasher::with_seed(a_seed);
            let mut b = MumAddHasher::with_seed(b_seed);
            x.hash(&mut a);
            x.hash(&mut b);
            assert_ne!(a.finish(), b.finish(), "byte {}", x);
        }
    }
}

#[test]
fn mum_zero_word_keeps_seeds_apart() {
    let mut a = MumAddHasher::with_seed(1);
    let mut b = MumAddHasher::with_seed(2);
    a.write_u8(0);
    b.write_u8(0);
    assert_ne!(a.finish(), b.finish());
    assert_eq!(a.finish(), 1);
    assert_eq!(b.finish(), 2);
}

#[test]
fn mum_zero_inputs_do_not_all_collide() {
    let scalar = {
        let mut h = MumAddHasher::default();
        h.write_u8(0);
        h.finish()
    };
    let bytes = |b: &[u8]| {
        let mut h = MumAddHasher::default();
        h.write(b);
        h.finish()
    };
    let (e, one, six) = (bytes(&[]), bytes(&[0]), bytes(&[0; 6]));
    assert!(!(e == scalar && one == scalar && six == scalar));
    assert_ne!(e, one);
    assert_ne!(e, six);
    assert_ne!(one, six);
    assert_eq!(scalar, 0);
    assert_eq!(e, 8001481297646474268);
    assert_eq!(one, 12918929776575081839);
    assert_eq!(six, 2849386348930941926);
}

#[test]
fn mum_finish_is_read_only() {
    let mut h = MumAddHasher::with_seed(5);
    h.write_u64(77);
    let first = h.finish();
    let second = h.finish();
    assert_eq!(first, second);
    h.write_u64(77);
    assert_eq!(h.finish(), h.finish());
}

#[test]
fn mum_usize_hashes_as_u64() {
    let mut a = MumAddHasher::with_seed(9);
    let mut b = MumAddHasher::with_seed(9);
    a.write_usize(123_456);
    b.write_u64(123_456);
    assert_eq!(a.finish(), b.finish());
    a.write_u8(200);
    b.write_u64(200);
    assert_eq!(a.finish(), b.finish());
}

#[test]
fn mum_str_hashes_as_its_bytes() {
    let mut a = MumAddHasher::default();
    let mut b = MumAddHasher::default();
    a.write_str("héllo");
    b.write("héllo".as_bytes());
    assert_eq!(a.finish(), b.finish());
    a.write_length_prefix(5);
    assert_eq!(a.finish(), b.finish());
}

#[test]
fn mum_copy_forks_the_stream() {
    let mut h = MumAddHasher::with_seed(11);
    h.write(b"common prefix");
    let mut fork = h.clone();
    h.write_u8(1);
    fork.write_u8(1);
    assert_eq!(h.finish(), fork.finish());
    fork.write_u8(2);
    h.write_u8(3);
    assert_ne!(h.finish(), fork.finish());
}

#[test]
fn mum_works_through_std_hasher() {
    let mut a = MumAddHasher::with_seed(3);
    let mut b = MumAddHasher::with_seed(3);
    Hasher::write_u32(&mut a, 8);
    Hasher::write_u128(&mut a, 99);
    Hasher::write(&mut a, b"xyz");
    b.write_u32(8);
    b.write_u128(99);
    b.write(b"xyz");
    assert_eq!(Hasher::finish(&a), b.finish());
}
