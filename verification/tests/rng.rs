use veil_server::rng::{fake_remote_count, fnv1a32, fnv1a64, scatter_bits, splitmix64, SimpleRng};

#[test]
fn splitmix64_reference_values() {
    assert_eq!(splitmix64(0), 16294208416658607535);
    assert_eq!(splitmix64(1), 10451216379200822465);
}

#[test]
fn seeded_rng_sequence() {
    let mut rng = SimpleRng::from_seed(42);
    assert_eq!(rng.state, 5780271850753602841);
    let v = rng.next_u64();
    assert_eq!(v, 5475066679335986491);
    assert_eq!(rng.state, 11233071174703379511);
}

#[test]
fn next_u24_is_top_bits() {
    let mut rng = SimpleRng::from_seed(42);
    let v = rng.next_u24();
    assert_eq!(v, 4979544);
    assert!(v < (1 << 24));
}

#[test]
fn gen_range_values() {
    let mut rng = SimpleRng::from_seed(42);
    assert_eq!(rng.gen_range_i64_inclusive(3, 10), 6);
    let mut rng = SimpleRng::from_seed(42);
    assert_eq!(rng.gen_range_i64_inclusive(-5, 5), -5);
}

#[test]
fn gen_range_degenerate_keeps_state() {
    let mut rng = SimpleRng::from_seed(7);
    let before = rng.state;
    assert_eq!(rng.gen_range_i64_inclusive(4, 4), 4);
    assert_eq!(rng.gen_range_i64_inclusive(9, 2), 9);
    assert_eq!(rng.state, before);
}

#[test]
fn gen_range_stays_in_bounds() {
    let mut rng = SimpleRng::from_seed(123456789);
    for _ in 0..1000 {
        let v = rng.gen_range_i64_inclusive(-3, 17);
        assert!((-3..=17).contains(&v));
    }
}

#[test]
fn wander_delay_in_whole_seconds() {
    let mut rng = SimpleRng::from_seed(42);
    assert_eq!(rng.next_wander_delay_micros(), 6_000_000);
    for _ in 0..200 {
        let d = rng.next_wander_delay_micros();
        assert!((3_000_000..=10_000_000).contains(&d));
        assert_eq!(d % 1_000_000, 0);
    }
}

#[test]
fn xorshift_never_reaches_zero() {
    let mut rng = SimpleRng { state: 1 };
    for _ in 0..10_000 {
        rng.next_u64();
        assert_ne!(rng.state, 0);
    }
    let mut rng = SimpleRng { state: 1 };
    rng.next_u64();
    assert_eq!(rng.state, 33554433);
}

#[test]
fn fnv_reference_values() {
    assert_eq!(fnv1a64(b""), 14695981039346656037);
    assert_eq!(fnv1a64(b"a"), 12638187200555641996);
    assert_eq!(fnv1a64(b"foobar"), 9625390261332436968);
    assert_eq!(fnv1a32(b""), 2166136261);
    assert_eq!(fnv1a32(b"a"), 3826002220);
    assert_eq!(fnv1a32(b"foobar"), 3214735720);
}

#[test]
fn scatter_bits_values() {
    let h = fnv1a32(b"foobar");
    assert_eq!(scatter_bits(h, 0, 0), 11225523);
    assert_eq!(scatter_bits(h, 7, 3), 13146740);
    for i in 0..100 {
        assert!(scatter_bits(h, i, i % 4) < (1 << 24));
    }
}

#[test]
fn fake_remote_count_is_capped() {
    assert_eq!(fake_remote_count(0), 0);
    assert_eq!(fake_remote_count(25), 25);
    assert_eq!(fake_remote_count(500), 500);
    assert_eq!(fake_remote_count(501), 500);
    assert_eq!(fake_remote_count(u32::MAX), 500);
}
