//! Tick rates of the scheduled reducers.
use vstd::prelude::*;

verus! {

/// Player movement tick frequency (Hz).
pub const PLAYER_TICK_HZ: i64 = 30;

/// Non-player movement tick frequency (Hz).
pub const NON_PLAYER_TICK_HZ: i64 = 10;

/// Area-of-interest refresh frequency (Hz).
pub const AOI_TICK_HZ: i64 = 10;

/// Fake wandering driver frequency (Hz): every 500ms.
pub const FAKE_WANDER_TICK_HZ: i64 = 2;

/// Regeneration tick period (milliseconds): once per second.
pub const REGEN_DT_MILLIS: u64 = 1000;

/// The scheduling interval, in microseconds, of a tick running at `hz`.
pub fn interval_micros(hz: i64) -> (r: i64)
    requires
        hz > 0,
    ensures
        r == 1_000_000int / (hz as int),
        0 <= r <= 1_000_000,
{
    1_000_000i64 / hz
}

} // verus!
