//! Health pool of an actor: the stored row and its transitions.
//!
//! Every transition returns the row that must be written back, or `None`
//! when the stored row is left as it is (no write happens).
use vstd::prelude::*;

use crate::ActorId;
use crate::stat::{compute_pool_max, min_u16, pool_max};

verus! {

/// Current and maximum health of an actor.
#[derive(Debug, PartialEq, Eq, Clone, Copy)]
pub struct HealthData {
    pub current: u16,
    pub max: u16,
}

impl HealthData {
    /// A full pool of the given size.
    pub fn new(max: u16) -> (r: Self)
        ensures
            r.current == max,
            r.max == max,
    {
        Self { current: max, max }
    }

    /// Formula to compute the maximum health based on level and fortitude.
    ///
    /// Level is capped at 50 and fortitude at 60 before the formula applies.
    pub fn compute_max(level: u8, fortitude: u8) -> (r: u16)
        ensures
            r as int == pool_max(level, fortitude),
    {
        compute_pool_max(level, fortitude)
    }
}

/// The stored health row of an actor. `is_full` is kept for an index lookup
/// of "is current health at max?".
#[derive(Debug, PartialEq, Eq, Clone, Copy)]
pub struct HealthRow {
    pub actor_id: ActorId,
    pub data: HealthData,
    pub is_full: bool,
}

impl HealthRow {
    /// The row invariant: current never exceeds max, and `is_full` says
    /// whether current equals max.
    pub open spec fn wf(&self) -> bool {
        &&& self.data.current <= self.data.max
        &&& self.is_full == (self.data.current == self.data.max)
    }

    /// The row stored for `data` after clamping current to max.
    pub open spec fn spec_settled(actor_id: ActorId, current: u16, max: u16) -> HealthRow {
        let c = min_u16(current, max);
        HealthRow { actor_id, data: HealthData { current: c, max }, is_full: c == max }
    }

    /// What `add` writes: nothing for a zero amount, else the saturated sum
    /// clamped to max.
    pub open spec fn spec_add(self, amount: u16) -> Option<HealthRow> {
        if amount == 0 {
            None
        } else {
            Some(Self::spec_settled(self.actor_id, self.data.current.saturating_add(amount), self.data.max))
        }
    }

    /// What `sub` writes: nothing for a zero amount, else the saturated
    /// difference clamped to max.
    pub open spec fn spec_sub(self, amount: u16) -> Option<HealthRow> {
        if amount == 0 {
            None
        } else {
            Some(Self::spec_settled(self.actor_id, self.data.current.saturating_sub(amount), self.data.max))
        }
    }

    /// What `set_current` writes: nothing when the value is unchanged, else
    /// the value clamped to max.
    pub open spec fn spec_set_current(self, value: u16) -> Option<HealthRow> {
        if value == self.data.current {
            None
        } else {
            Some(Self::spec_settled(self.actor_id, value, self.data.max))
        }
    }

    /// What `set_max` writes: nothing when the max is unchanged, else the new
    /// max with current clamped to it.
    pub open spec fn spec_set_max(self, value: u16) -> Option<HealthRow> {
        if value == self.data.max {
            None
        } else {
            Some(Self::spec_settled(self.actor_id, self.data.current, value))
        }
    }

    /// Clamps current to max.
    fn clamp(&mut self)
        ensures
            final(self).data.current == min_u16(old(self).data.current, old(self).data.max),
            final(self).data.max == old(self).data.max,
            final(self).actor_id == old(self).actor_id,
            final(self).is_full == old(self).is_full,
    {
        self.data.current = self.data.current.min(self.data.max);
    }

    /// The row to insert for a new actor: current is clamped to max.
    pub fn insert(actor_id: ActorId, data: HealthData) -> (r: HealthRow)
        ensures
            r == Self::spec_settled(actor_id, data.current, data.max),
            r.wf(),
    {
        let current = data.current.min(data.max);
        HealthRow { actor_id, is_full: current == data.max, data: HealthData { current, ..data } }
    }

    /// Adds to the current value, saturating, then clamping to max.
    /// Nothing is written when `amount` is zero.
    pub fn add(self, amount: u16) -> (r: Option<HealthRow>)
        ensures
            r == self.spec_add(amount),
    {
        if amount == 0 {
            return None;
        }
        let mut row = self;
        row.data.current = row.data.current.saturating_add(amount);
        row.clamp();
        row.is_full = row.data.current == row.data.max;
        Some(row)
    }

    /// Subtracts from the current value, saturating at zero, then clamping
    /// to max. Nothing is written when `amount` is zero.
    pub fn sub(self, amount: u16) -> (r: Option<HealthRow>)
        ensures
            r == self.spec_sub(amount),
    {
        if amount == 0 {
            return None;
        }
        let mut row = self;
        row.data.current = row.data.current.saturating_sub(amount);
        row.clamp();
        row.is_full = row.data.current == row.data.max;
        Some(row)
    }

    /// Sets the current value, clamping to max. Nothing is written when the
    /// value equals the stored current value.
    pub fn set_current(self, value: u16) -> (r: Option<HealthRow>)
        ensures
            r == self.spec_set_current(value),
    {
        if value == self.data.current {
            return None;
        }
        let mut row = self;
        row.data.current = value;
        row.clamp();
        row.is_full = row.data.current == row.data.max;
        Some(row)
    }

    /// Sets the max value, clamping current to it. Nothing is written when
    /// the value equals the stored max.
    pub fn set_max(self, value: u16) -> (r: Option<HealthRow>)
        ensures
            r == self.spec_set_max(value),
    {
        if value == self.data.max {
            return None;
        }
        let mut row = self;
        row.data.max = value;
        row.clamp();
        row.is_full = row.data.current == row.data.max;
        Some(row)
    }
}

/// Every write of a health transition is a well-formed row, whatever the
/// row it started from.
pub proof fn law_health_writes_well_formed(row: HealthRow, amount: u16, value: u16)
    ensures
        row.spec_add(amount) matches Some(r) ==> r.wf(),
        row.spec_sub(amount) matches Some(r) ==> r.wf(),
        row.spec_set_current(value) matches Some(r) ==> r.wf(),
        row.spec_set_max(value) matches Some(r) ==> r.wf(),
{
}

/// On a well-formed row: adding raises current by the amount up to max,
/// subtracting lowers it by the amount down to zero, neither changes max or
/// the actor, and setting max leaves current at most the new max.
pub proof fn law_health_add_sub(row: HealthRow, amount: u16, value: u16)
    requires
        row.wf(),
    ensures
        row.spec_add(amount) matches Some(r) ==> {
            &&& r.actor_id == row.actor_id
            &&& r.data.max == row.data.max
            &&& r.data.current == min_u16(
                (if row.data.current + amount > u16::MAX { u16::MAX as int } else { row.data.current + amount }) as u16,
                row.data.max,
            )
            &&& row.data.current <= r.data.current
        },
        row.spec_sub(amount) matches Some(r) ==> {
            &&& r.actor_id == row.actor_id
            &&& r.data.max == row.data.max
            &&& r.data.current == (if row.data.current >= amount { row.data.current - amount } else { 0 })
            &&& r.data.current <= row.data.current
        },
        row.spec_set_max(value) matches Some(r) ==> r.data.current <= value && r.data.max == value,
{
}

/// What each health transition writes, in terms of the row and the
/// argument: add and sub write exactly for a nonzero amount, set_current
/// exactly for a changed value, set_max exactly for a changed max; every
/// write keeps the actor, takes the saturated sum, saturated difference or
/// new value, caps current at max, and recomputes `is_full`.
pub proof fn law_health_transitions(row: HealthRow, amount: u16, value: u16)
    ensures
        row.spec_add(amount) is Some <==> amount != 0,
        row.spec_add(amount) matches Some(r) ==> r.actor_id == row.actor_id && r.data.max
            == row.data.max && r.data.current as int == (if row.data.current + amount
            <= row.data.max {
            row.data.current + amount
        } else {
            row.data.max as int
        }) && r.is_full == (r.data.current == r.data.max),
        row.spec_sub(amount) is Some <==> amount != 0,
        row.spec_sub(amount) matches Some(r) ==> r.actor_id == row.actor_id && r.data.max
            == row.data.max && r.data.current as int == (if row.data.current >= amount {
            if row.data.current - amount <= row.data.max {
                row.data.current - amount
            } else {
                row.data.max as int
            }
        } else {
            0
        }) && r.is_full == (r.data.current == r.data.max),
        row.spec_set_current(value) is Some <==> value != row.data.current,
        row.spec_set_current(value) matches Some(r) ==> r.actor_id == row.actor_id && r.data.max
            == row.data.max && r.data.current == (if value <= row.data.max {
            value
        } else {
            row.data.max
        }) && r.is_full == (r.data.current == r.data.max),
        row.spec_set_max(value) is Some <==> value != row.data.max,
        row.spec_set_max(value) matches Some(r) ==> r.actor_id == row.actor_id && r.data.max
            == value && r.data.current == (if row.data.current <= value {
            row.data.current
        } else {
            value
        }) && r.is_full == (r.data.current == r.data.max),
{
}

/// A new row holds the given pool with current capped at max.
pub proof fn law_health_insert(actor_id: ActorId, data: HealthData)
    ensures
        HealthRow::spec_settled(actor_id, data.current, data.max).actor_id == actor_id,
        HealthRow::spec_settled(actor_id, data.current, data.max).data.max == data.max,
        HealthRow::spec_settled(actor_id, data.current, data.max).data.current == (if data.current
            <= data.max {
            data.current
        } else {
            data.max
        }),
{
}

} // verus!
