//! Mana pool of an owner: the stored row and its transitions.
//!
//! Every transition returns the row that must be written back, or `None`
//! when the stored row is left as it is (no write happens).
use vstd::prelude::*;

use crate::stat::{compute_pool_max, min_u16, pool_max};
use crate::Owner;

verus! {

/// Current and maximum mana.
#[derive(Debug, PartialEq, Eq, Clone, Copy)]
pub struct ManaData {
    pub current: u16,
    pub max: u16,
}

impl ManaData {
    /// A full pool of the given size.
    pub fn new(max: u16) -> (r: Self)
        ensures
            r.current == max,
            r.max == max,
    {
        Self { current: max, max }
    }

    /// Formula to compute the maximum mana based on level and intellect.
    ///
    /// Level is capped at 50 and intellect at 60 before the formula applies.
    pub fn compute_max(level: u8, intellect: u8) -> (r: u16)
        ensures
            r as int == pool_max(level, intellect),
    {
        compute_pool_max(level, intellect)
    }
}

/// The stored mana row of an owner. `is_full` is kept for an index lookup
/// of "is current mana at max?".
#[derive(Debug, PartialEq, Eq, Clone, Copy)]
pub struct ManaRow {
    pub owner: Owner,
    pub is_full: bool,
    pub data: ManaData,
}

impl ManaRow {
    /// The row invariant: current never exceeds max, and `is_full` says
    /// whether current equals max.
    pub open spec fn wf(&self) -> bool {
        &&& self.data.current <= self.data.max
        &&& self.is_full == (self.data.current == self.data.max)
    }

    /// The row stored with the given current and max values, `is_full`
    /// recomputed.
    pub open spec fn spec_with(owner: Owner, current: u16, max: u16) -> ManaRow {
        ManaRow { owner, data: ManaData { current, max }, is_full: current == max }
    }

    /// What `add` writes: nothing for a zero amount or a row marked full,
    /// else the saturated sum clamped to max.
    pub open spec fn spec_add(self, amount: u16) -> Option<ManaRow> {
        if amount == 0 || self.is_full {
            None
        } else {
            Some(Self::spec_with(self.owner, min_u16(self.data.current.saturating_add(amount), self.data.max), self.data.max))
        }
    }

    /// What `sub` writes: nothing for a zero amount or an empty pool, else
    /// the saturated difference.
    pub open spec fn spec_sub(self, amount: u16) -> Option<ManaRow> {
        if amount == 0 || self.data.current == 0 {
            None
        } else {
            Some(Self::spec_with(self.owner, self.data.current.saturating_sub(amount), self.data.max))
        }
    }

    /// What `set_current` writes: nothing when the value is unchanged, else
    /// the value clamped to max.
    pub open spec fn spec_set_current(self, value: u16) -> Option<ManaRow> {
        if value == self.data.current {
            None
        } else {
            Some(Self::spec_with(self.owner, min_u16(value, self.data.max), self.data.max))
        }
    }

    /// What `set_max` writes: nothing when the max is unchanged, else the new
    /// max with current clamped to it.
    pub open spec fn spec_set_max(self, value: u16) -> Option<ManaRow> {
        if value == self.data.max {
            None
        } else {
            Some(Self::spec_with(self.owner, min_u16(self.data.current, value), value))
        }
    }

    /// The row to insert for a new owner: current is clamped to max.
    pub fn insert(owner: Owner, data: ManaData) -> (r: ManaRow)
        ensures
            r == Self::spec_with(owner, min_u16(data.current, data.max), data.max),
            r.wf(),
    {
        let current = data.current.min(data.max);
        ManaRow { owner, is_full: current == data.max, data: ManaData { current, ..data } }
    }

    /// Adds to the current value, saturating, then clamping to max.
    /// Nothing is written when `amount` is zero or the row is marked full.
    pub fn add(self, amount: u16) -> (r: Option<ManaRow>)
        ensures
            r == self.spec_add(amount),
    {
        if amount == 0 || self.is_full {
            return None;
        }
        let mut row = self;
        row.data.current = row.data.current.saturating_add(amount).min(row.data.max);
        row.is_full = row.data.current == row.data.max;
        Some(row)
    }

    /// Subtracts from the current value, saturating at zero.
    /// Nothing is written when `amount` is zero or the pool is empty.
    pub fn sub(self, amount: u16) -> (r: Option<ManaRow>)
        ensures
            r == self.spec_sub(amount),
    {
        if amount == 0 || self.data.current == 0 {
            return None;
        }
        let mut row = self;
        row.data.current = row.data.current.saturating_sub(amount);
        row.is_full = row.data.current == row.data.max;
        Some(row)
    }

    /// Sets the current value, clamping to max. Nothing is written when the
    /// value equals the stored current value.
    pub fn set_current(self, value: u16) -> (r: Option<ManaRow>)
        ensures
            r == self.spec_set_current(value),
    {
        if value == self.data.current {
            return None;
        }
        let mut row = self;
        row.data.current = value.min(row.data.max);
        row.is_full = row.data.current == row.data.max;
        Some(row)
    }

    /// Sets the max value, clamping current to it. Nothing is written when
    /// the value equals the stored max.
    pub fn set_max(self, value: u16) -> (r: Option<ManaRow>)
        ensures
            r == self.spec_set_max(value),
    {
        if value == self.data.max {
            return None;
        }
        let mut row = self;
        row.data.max = value;
        row.data.current = row.data.current.min(value);
        row.is_full = row.data.current == row.data.max;
        Some(row)
    }
}

/// Every write of a mana transition from a well-formed row is a well-formed
/// row.
pub proof fn law_mana_writes_well_formed(row: ManaRow, amount: u16, value: u16)
    requires
        row.wf(),
    ensures
        row.spec_add(amount) matches Some(r) ==> r.wf(),
        row.spec_sub(amount) matches Some(r) ==> r.wf(),
        row.spec_set_current(value) matches Some(r) ==> r.wf(),
        row.spec_set_max(value) matches Some(r) ==> r.wf(),
{
}

/// On well-formed rows holding the same pool, mana and health follow the
/// same arithmetic: whenever mana writes, health writes the same pool; where
/// mana skips a write because the pool is full, the health write leaves the
/// pool as it was.
pub proof fn law_mana_matches_health(
    mana: ManaRow,
    health: crate::stat::health::HealthRow,
    amount: u16,
    value: u16,
)
    requires
        mana.wf(),
        health.wf(),
        mana.data.current == health.data.current,
        mana.data.max == health.data.max,
    ensures
        mana.spec_add(amount) matches Some(m) ==> health.spec_add(amount) matches Some(h) && h.data.current == m.data.current && h.data.max == m.data.max && h.is_full == m.is_full,
        amount != 0 && mana.is_full ==> (health.spec_add(amount) matches Some(h) && h.data.current == health.data.current && h.data.max == health.data.max),
        mana.spec_sub(amount) matches Some(m) ==> health.spec_sub(amount) matches Some(h) && h.data.current == m.data.current && h.data.max == m.data.max && h.is_full == m.is_full,
        mana.spec_set_current(value) matches Some(m) ==> health.spec_set_current(value) matches Some(h) && h.data.current == m.data.current && h.data.max == m.data.max,
        mana.spec_set_max(value) matches Some(m) ==> health.spec_set_max(value) matches Some(h) && h.data.current == m.data.current && h.data.max == m.data.max,
{
}

/// What each mana transition writes, in terms of the row and the argument:
/// add writes exactly when the amount is nonzero and the row is not marked
/// full, the saturated sum capped at max; sub writes exactly when the amount
/// and the pool are nonzero, the saturated difference; set_current writes
/// exactly for a changed value, capped at max; set_max writes exactly for a
/// changed max, with current capped at it. Every write keeps the owner,
/// recomputes `is_full`, and (but for set_max) keeps max.
pub proof fn law_mana_transitions(row: ManaRow, amount: u16, value: u16)
    ensures
        row.spec_add(amount) is Some <==> (amount != 0 && !row.is_full),
        row.spec_add(amount) matches Some(r) ==> r.owner == row.owner && r.data.max == row.data.max
            && r.data.current as int == (if row.data.current + amount <= row.data.max {
            row.data.current + amount
        } else {
            row.data.max as int
        }) && r.is_full == (r.data.current == r.data.max),
        row.spec_sub(amount) is Some <==> (amount != 0 && row.data.current != 0),
        row.spec_sub(amount) matches Some(r) ==> r.owner == row.owner && r.data.max == row.data.max
            && r.data.current as int == (if row.data.current >= amount {
            row.data.current - amount
        } else {
            0
        }) && r.is_full == (r.data.current == r.data.max),
        row.spec_set_current(value) is Some <==> value != row.data.current,
        row.spec_set_current(value) matches Some(r) ==> r.owner == row.owner && r.data.max
            == row.data.max && r.data.current == (if value <= row.data.max {
            value
        } else {
            row.data.max
        }) && r.is_full == (r.data.current == r.data.max),
        row.spec_set_max(value) is Some <==> value != row.data.max,
        row.spec_set_max(value) matches Some(r) ==> r.owner == row.owner && r.data.max == value
            && r.data.current == (if row.data.current <= value {
            row.data.current
        } else {
            value
        }) && r.is_full == (r.data.current == r.data.max),
{
}

} // verus!
