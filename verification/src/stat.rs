//! Stat pools and primary stats of actors.
use vstd::prelude::*;

pub mod health;
pub mod mana;
pub mod primary_stats;

verus! {

/// Smaller of two `u16` values.
pub open spec fn min_u16(a: u16, b: u16) -> u16 {
    if a <= b { a } else { b }
}

/// Largest level taken into account by the pool formulas.
pub const LEVEL_CAP: u16 = 50;

/// Largest primary stat value taken into account by the pool formulas.
pub const STAT_CAP: u16 = 60;

/// Base size of a pool before level and stat growth.
pub const BASE_POOL: u16 = 200;

/// The pool size formula shared by health and mana: a base of 200, plus
/// `5 * level^2`, plus `9 * stat * level`, where the level is capped at 50 and
/// the stat at 60.
pub open spec fn pool_max(level: u8, stat: u8) -> int {
    let l = min_u16(level as u16, LEVEL_CAP) as int;
    let s = min_u16(stat as u16, STAT_CAP) as int;
    BASE_POOL as int + 5 * (l * l) + 9 * (s * l)
}

/// The pool formula is at least the base pool and stays within `u16`, so
/// no saturation ever happens.
pub proof fn law_pool_max_bounds(level: u8, stat: u8)
    ensures
        BASE_POOL <= pool_max(level, stat) <= 39700,
{
    let l = min_u16(level as u16, LEVEL_CAP) as int;
    let s = min_u16(stat as u16, STAT_CAP) as int;
    assert(0 <= l * l <= 2500) by (nonlinear_arith)
        requires
            0 <= l <= 50,
    ;
    assert(0 <= s * l <= 3000) by (nonlinear_arith)
        requires
            0 <= l <= 50,
            0 <= s <= 60,
    ;
}

/// Computes the capped pool formula in machine integers.
pub fn compute_pool_max(level: u8, stat: u8) -> (r: u16)
    ensures
        r as int == pool_max(level, stat),
{
    let base: u16 = BASE_POOL;
    let stat: u16 = (stat as u16).min(STAT_CAP);
    let level: u16 = (level as u16).min(LEVEL_CAP);
    proof {
        law_pool_max_bounds(0, 0);
        assert(level * level <= 2500) by (nonlinear_arith)
            requires
                level <= 50,
        ;
        assert(stat * level <= 3000) by (nonlinear_arith)
            requires
                level <= 50,
                stat <= 60,
        ;
    }
    let growth: u16 = level * level * 5;
    let bonus: u16 = stat * level * 9;
    base.saturating_add(growth).saturating_add(bonus)
}

/// Level and stat values beyond their caps count as the caps.
pub proof fn law_pool_max_caps(level: u8, stat: u8)
    ensures
        pool_max(level, stat) == pool_max(
            min_u16(level as u16, LEVEL_CAP) as u8,
            min_u16(stat as u16, STAT_CAP) as u8,
        ),
{
}

/// A pool never shrinks when the level or the stat grows.
pub proof fn law_pool_max_monotone(level1: u8, stat1: u8, level2: u8, stat2: u8)
    requires
        level1 <= level2,
        stat1 <= stat2,
    ensures
        pool_max(level1, stat1) <= pool_max(level2, stat2),
{
    let l1 = min_u16(level1 as u16, LEVEL_CAP) as int;
    let s1 = min_u16(stat1 as u16, STAT_CAP) as int;
    let l2 = min_u16(level2 as u16, LEVEL_CAP) as int;
    let s2 = min_u16(stat2 as u16, STAT_CAP) as int;
    assert(l1 * l1 <= l2 * l2 && s1 * l1 <= s2 * l2) by (nonlinear_arith)
        requires
            0 <= l1 <= l2,
            0 <= s1 <= s2,
    ;
}

/// The pool formula by its steps: a level-0 pool is the base pool; each
/// level below the cap adds `5 * (2 * level + 1) + 9 * stat`; each stat
/// point below the cap adds `9 * level`; levels and stats above the caps add
/// nothing.
pub proof fn law_pool_max_steps(level: u8, stat: u8)
    ensures
        pool_max(0, stat) == BASE_POOL,
        level < LEVEL_CAP ==> pool_max((level + 1) as u8, stat) - pool_max(level, stat) == 5 * (2
            * level + 1) + 9 * min_u16(stat as u16, STAT_CAP),
        level >= LEVEL_CAP && level < 255 ==> pool_max((level + 1) as u8, stat) == pool_max(
            level,
            stat,
        ),
        stat < STAT_CAP ==> pool_max(level, (stat + 1) as u8) - pool_max(level, stat) == 9
            * min_u16(level as u16, LEVEL_CAP),
        stat >= STAT_CAP && stat < 255 ==> pool_max(level, (stat + 1) as u8) == pool_max(
            level,
            stat,
        ),
{
    let l = min_u16(level as u16, LEVEL_CAP) as int;
    let s = min_u16(stat as u16, STAT_CAP) as int;
    let l0 = min_u16(0u8 as u16, LEVEL_CAP) as int;
    assert(l0 == 0);
    assert(l0 * l0 == 0 && s * l0 == 0) by (nonlinear_arith)
        requires
            l0 == 0,
    ;
    assert((l + 1) * (l + 1) == l * l + 2 * l + 1) by (nonlinear_arith);
    assert((s + 1) * l == s * l + l) by (nonlinear_arith);
    assert(s * (l + 1) == s * l + s) by (nonlinear_arith);
}

/// `min_u16` is the smaller of its arguments.
pub proof fn law_min_u16(a: u16, b: u16)
    ensures
        min_u16(a, b) <= a,
        min_u16(a, b) <= b,
        min_u16(a, b) == a || min_u16(a, b) == b,
{
}

} // verus!
