//! Verified game rules of the Aurora's Veil world server: vital stat pools
//! (health, mana), primary stat allocation, status flag bitmasks, the
//! movement state decisions of the tick reducers, and the deterministic
//! pseudo-random helpers used to scatter and drive wandering actors.
use vstd::prelude::*;

pub mod stat;
pub mod status_flags;
pub mod rng;
pub mod movement;
pub mod overlap;
pub mod schedule;

verus! {

/// Identifier of a live actor.
pub type ActorId = u64;

/// Owner key of per-owner stat rows.
pub type Owner = u64;

} // verus!
