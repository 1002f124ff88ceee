//! Deterministic pseudo-random helpers for dev tooling (not cryptographic):
//! the xorshift64* generator seeded through splitmix64, FNV-1a hashing of
//! the text that seeds it, and the integer mixing behind the scatter
//! values of the stress-test spawner.
use vstd::prelude::*;

verus! {

/// Increment of the splitmix64 sequence.
pub const SPLITMIX_GAMMA: u64 = 0x9E37_79B9_7F4A_7C15;

/// First multiplier of the splitmix64 finaliser.
pub const SPLITMIX_MUL1: u64 = 0xBF58_476D_1CE4_E5B9;

/// Second multiplier of the splitmix64 finaliser.
pub const SPLITMIX_MUL2: u64 = 0x94D0_49BB_1331_11EB;

/// Constant mixed into a seed before it is scrambled.
pub const SEED_MIX: u64 = 0xA5A5_A5A5_5A5A_5A5A;

/// Output multiplier of xorshift64*.
pub const XORSHIFT_STAR_MUL: u64 = 0x2545_F491_4F6C_DD1D;

/// FNV-1a 64-bit offset basis.
pub const FNV64_OFFSET: u64 = 14695981039346656037;

/// FNV-1a 64-bit prime.
pub const FNV64_PRIME: u64 = 1099511628211;

/// FNV-1a 32-bit offset basis.
pub const FNV32_OFFSET: u32 = 2166136261;

/// FNV-1a 32-bit prime.
pub const FNV32_PRIME: u32 = 16777619;

/// splitmix64 of `x`: one step of the Weyl sequence followed by the
/// finaliser.
pub open spec fn spec_splitmix64(x: u64) -> u64 {
    let x1 = x.wrapping_add(SPLITMIX_GAMMA);
    let z1 = (x1 ^ (x1 >> 30u64)).wrapping_mul(SPLITMIX_MUL1);
    let z2 = (z1 ^ (z1 >> 27u64)).wrapping_mul(SPLITMIX_MUL2);
    z2 ^ (z2 >> 31u64)
}

/// splitmix64: scrambles a 64-bit seed.
pub fn splitmix64(x: u64) -> (r: u64)
    ensures
        r == spec_splitmix64(x),
{
    let x = x.wrapping_add(SPLITMIX_GAMMA);
    let mut z = x;
    z = (z ^ (z >> 30u64)).wrapping_mul(SPLITMIX_MUL1);
    z = (z ^ (z >> 27u64)).wrapping_mul(SPLITMIX_MUL2);
    z ^ (z >> 31u64)
}

/// The xorshift64 state transition.
pub open spec fn spec_xorshift(x: u64) -> u64 {
    let a = x ^ (x >> 12u64);
    let b = a ^ (a << 25u64);
    b ^ (b >> 27u64)
}

/// FNV-1a 64-bit hash of a byte sequence.
pub open spec fn spec_fnv1a64(bytes: Seq<u8>) -> u64
    decreases bytes.len(),
{
    if bytes.len() == 0 {
        FNV64_OFFSET
    } else {
        (spec_fnv1a64(bytes.drop_last()) ^ (bytes.last() as u64)).wrapping_mul(FNV64_PRIME)
    }
}

/// FNV-1a 32-bit hash of a byte sequence.
pub open spec fn spec_fnv1a32(bytes: Seq<u8>) -> u32
    decreases bytes.len(),
{
    if bytes.len() == 0 {
        FNV32_OFFSET
    } else {
        (spec_fnv1a32(bytes.drop_last()) ^ (bytes.last() as u32)).wrapping_mul(FNV32_PRIME)
    }
}

/// FNV-1a 64-bit hash; used to turn the debug text of a timestamp into a
/// seed.
pub fn fnv1a64(bytes: &[u8]) -> (r: u64)
    ensures
        r == spec_fnv1a64(bytes@),
{
    let mut h: u64 = FNV64_OFFSET;
    let mut i: usize = 0;
    while i < bytes.len()
        invariant
            0 <= i <= bytes@.len(),
            h == spec_fnv1a64(bytes@.take(i as int)),
        decreases bytes@.len() - i,
    {
        assert(bytes@.take(i + 1).drop_last() == bytes@.take(i as int));
        h = h ^ (bytes[i] as u64);
        h = h.wrapping_mul(FNV64_PRIME);
        i = i + 1;
    }
    assert(bytes@.take(bytes@.len() as int) == bytes@);
    h
}

/// FNV-1a 32-bit hash; used on the debug text of the timestamp followed by
/// that of the caller.
pub fn fnv1a32(bytes: &[u8]) -> (r: u32)
    ensures
        r == spec_fnv1a32(bytes@),
{
    let mut h: u32 = FNV32_OFFSET;
    let mut i: usize = 0;
    while i < bytes.len()
        invariant
            0 <= i <= bytes@.len(),
            h == spec_fnv1a32(bytes@.take(i as int)),
        decreases bytes@.len() - i,
    {
        assert(bytes@.take(i + 1).drop_last() == bytes@.take(i as int));
        h = h ^ (bytes[i] as u32);
        h = h.wrapping_mul(FNV32_PRIME);
        i = i + 1;
    }
    assert(bytes@.take(bytes@.len() as int) == bytes@);
    h
}

/// Rotation of a 32-bit word left by 13 bits.
pub open spec fn spec_rotl13(h: u32) -> u32 {
    (h << 13u32) | (h >> 19u32)
}

/// The 24-bit scatter value for index `i` and `salt`, mixed from the hash
/// of the seeding text.
pub open spec fn spec_scatter_bits(text_hash: u32, i: u32, salt: u32) -> u32 {
    let h1 = text_hash ^ i.wrapping_mul(0x9E37_79B9);
    let h2 = spec_rotl13(h1).wrapping_mul(0x85EB_CA6B);
    let h3 = h2 ^ salt.wrapping_mul(0xC2B2_AE35);
    let h4 = h3 ^ (h3 >> 16u32);
    let h5 = h4.wrapping_mul(0x27D4_EB2D);
    let h6 = h5 ^ (h5 >> 15u32);
    h6 >> 8u32
}

/// Mixes the index and salt into the hash of the seeding text and keeps the
/// 24 high bits; dividing by `2^24` gives a value in `[0, 1)`.
pub fn scatter_bits(text_hash: u32, i: u32, salt: u32) -> (r: u32)
    ensures
        r == spec_scatter_bits(text_hash, i, salt),
        r < 0x100_0000,
{
    let mut h: u32 = text_hash;
    h = h ^ i.wrapping_mul(0x9E37_79B9);
    h = ((h << 13u32) | (h >> 19u32)).wrapping_mul(0x85EB_CA6B);
    h = h ^ salt.wrapping_mul(0xC2B2_AE35);
    h = h ^ (h >> 16u32);
    h = h.wrapping_mul(0x27D4_EB2D);
    h = h ^ (h >> 15u32);
    let r = h >> 8u32;
    assert(h >> 8u32 < 0x100_0000) by (bit_vector);
    r
}

/// Most fake remote actors spawned by one stress-test call.
pub const MAX_FAKE_REMOTES: u32 = 500;

/// The number of fake remote actors actually spawned for a request of
/// `count`: clamped to avoid accidental foot-guns.
pub fn fake_remote_count(count: u32) -> (r: u32)
    ensures
        r == if count <= MAX_FAKE_REMOTES { count } else { MAX_FAKE_REMOTES },
{
    count.min(MAX_FAKE_REMOTES)
}

/// Minimal deterministic PRNG (xorshift64*).
pub struct SimpleRng {
    pub state: u64,
}

/// Smallest delay between wander target picks (seconds).
pub const WANDER_DELAY_MIN_S: i64 = 3;

/// Largest delay between wander target picks (seconds).
pub const WANDER_DELAY_MAX_S: i64 = 10;

impl SimpleRng {
    /// The state of a generator seeded with `seed`.
    pub open spec fn spec_seeded(seed: u64) -> u64 {
        spec_splitmix64(seed ^ SEED_MIX)
    }

    /// The output drawn from a state.
    pub open spec fn spec_output(state: u64) -> u64 {
        spec_xorshift(state).wrapping_mul(XORSHIFT_STAR_MUL)
    }

    /// A generator seeded with `seed` (the hash of a timestamp).
    pub fn from_seed(seed: u64) -> (r: Self)
        ensures
            r.state == Self::spec_seeded(seed),
    {
        let mixed = splitmix64(seed ^ SEED_MIX);
        Self { state: mixed }
    }

    /// Advances the state and returns the next 64-bit output.
    pub fn next_u64(&mut self) -> (r: u64)
        ensures
            final(self).state == spec_xorshift(old(self).state),
            r == Self::spec_output(old(self).state),
    {
        let mut x = self.state;
        x = x ^ (x >> 12u64);
        x = x ^ (x << 25u64);
        x = x ^ (x >> 27u64);
        self.state = x;
        x.wrapping_mul(XORSHIFT_STAR_MUL)
    }

    /// Advances the state and returns the top 24 bits of the next output;
    /// dividing by `2^24` gives a value in `[0, 1)`.
    pub fn next_u24(&mut self) -> (r: u32)
        ensures
            final(self).state == spec_xorshift(old(self).state),
            r as int == (Self::spec_output(old(self).state) >> 40u64) as int,
            r < 0x100_0000,
    {
        let v = self.next_u64();
        assert(v >> 40u64 < 0x100_0000) by (bit_vector);
        (v >> 40u64) as u32
    }

    /// A value in `[min, max]`. When `min >= max` it is `min` and the state
    /// does not advance; otherwise the next output is reduced modulo the
    /// span.
    pub fn gen_range_i64_inclusive(&mut self, min: i64, max: i64) -> (r: i64)
        requires
            max - min < i64::MAX,
        ensures
            min >= max ==> r == min && final(self).state == old(self).state,
            min < max ==> final(self).state == spec_xorshift(old(self).state) && r as int == min
                + (Self::spec_output(old(self).state) as int % (max - min + 1)),
            min < max ==> min <= r <= max,
    {
        if min >= max {
            return min;
        }
        let span: u64 = (max - min + 1) as u64;
        let v: u64 = self.next_u64() % span;
        min + v as i64
    }

    /// The delay until a fake actor picks its next wander target, in
    /// microseconds: a whole number of seconds drawn from
    /// `[WANDER_DELAY_MIN_S, WANDER_DELAY_MAX_S]`.
    pub fn next_wander_delay_micros(&mut self) -> (r: i64)
        ensures
            final(self).state == spec_xorshift(old(self).state),
            r as int == 1_000_000 * (WANDER_DELAY_MIN_S + (Self::spec_output(old(self).state) as int
                % (WANDER_DELAY_MAX_S - WANDER_DELAY_MIN_S + 1))),
            3_000_000 <= r <= 10_000_000,
    {
        let delay_s = self.gen_range_i64_inclusive(WANDER_DELAY_MIN_S, WANDER_DELAY_MAX_S);
        // The delay is at most ten seconds, so the product never saturates.
        delay_s * 1_000_000
    }
}

/// A nonzero generator state stays nonzero, so the generator never falls
/// into the all-zero state (which would only produce zeros from then on).
pub proof fn law_xorshift_nonzero(x: u64)
    requires
        x != 0,
    ensures
        spec_xorshift(x) != 0,
{
    let a = x ^ (x >> 12u64);
    let b = a ^ (a << 25u64);
    assert(a != 0) by (bit_vector)
        requires
            x != 0,
            a == x ^ (x >> 12u64),
    ;
    assert(b != 0) by (bit_vector)
        requires
            a != 0,
            b == a ^ (a << 25u64),
    ;
    assert(b ^ (b >> 27u64) != 0) by (bit_vector)
        requires
            b != 0,
    ;
}

} // verus!
