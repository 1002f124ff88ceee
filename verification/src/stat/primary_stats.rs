//! Primary stats: their bounds, validation, and the point placement rule.
use vstd::prelude::*;

use crate::ActorId;

verus! {

/// Smallest value a primary stat may hold.
pub const MIN_STAT: u8 = 10;

/// Largest value a primary stat may hold.
pub const MAX_STAT: u8 = 60;

/// The primary driving factors for other aspects of gameplay (secondary
/// stats, damage, etc...).
#[derive(Debug, PartialEq, Eq, Structural, Clone, Copy)]
pub struct PrimaryStatsData {
    /// Used in part to determine the critical chance of attacks and abilities
    pub ferocity: u8,
    /// Used in part to determine the maximum health capacity
    pub fortitude: u8,
    /// Used in part to determine the maximum mana capacity
    pub intellect: u8,
    /// Used in part to determine the power of abilities
    pub acuity: u8,
    /// The points that are currently available for the owner to place into
    /// primary stats
    pub available_points: u8,
}

/// Every stat at its minimum, no points available.
pub open spec fn spec_default_stats() -> PrimaryStatsData {
    PrimaryStatsData {
        ferocity: MIN_STAT,
        fortitude: MIN_STAT,
        intellect: MIN_STAT,
        acuity: MIN_STAT,
        available_points: 0,
    }
}

impl Default for PrimaryStatsData {
    /// Every stat at its minimum, no points available.
    fn default() -> (r: Self)
        ensures
            r == spec_default_stats(),
    {
        Self {
            ferocity: MIN_STAT,
            fortitude: MIN_STAT,
            intellect: MIN_STAT,
            acuity: MIN_STAT,
            available_points: 0,
        }
    }
}

/// A single stat lies within `[MIN_STAT, MAX_STAT]`.
pub open spec fn stat_in_bounds(v: u8) -> bool {
    MIN_STAT <= v <= MAX_STAT
}

impl PrimaryStatsData {
    /// All four stats lie within their bounds.
    pub open spec fn stats_in_bounds(&self) -> bool {
        &&& stat_in_bounds(self.ferocity)
        &&& stat_in_bounds(self.fortitude)
        &&& stat_in_bounds(self.intellect)
        &&& stat_in_bounds(self.acuity)
    }

    /// The sum of the four stats.
    pub open spec fn total(&self) -> int {
        self.ferocity + self.fortitude + self.intellect + self.acuity
    }

    /// Determines if stats are within the per-stat min/max bounds and within
    /// the total of points that the owner's level grants
    /// (`points_for_level`).
    pub fn validate(&self, points_for_level: u8) -> (r: bool)
        ensures
            r == (self.stats_in_bounds() && self.total() <= points_for_level),
    {
        let stats: [u8; 4] = [self.ferocity, self.fortitude, self.intellect, self.acuity];
        let mut i: usize = 0;
        while i < 4
            invariant
                0 <= i <= 4,
                stats@ == seq![self.ferocity, self.fortitude, self.intellect, self.acuity],
                forall|j: int| 0 <= j < i ==> stat_in_bounds(#[trigger] stats@[j]),
            decreases 4 - i,
        {
            let v = stats[i];
            if !(v >= MIN_STAT && v <= MAX_STAT) {
                return false;
            }
            i = i + 1;
        }
        assert(stat_in_bounds(stats@[0]) && stat_in_bounds(stats@[1]) && stat_in_bounds(
            stats@[2],
        ) && stat_in_bounds(stats@[3]));
        let mut total: u8 = 0;
        let mut k: usize = 0;
        while k < 4
            invariant
                0 <= k <= 4,
                stats@ == seq![self.ferocity, self.fortitude, self.intellect, self.acuity],
                forall|j: int| 0 <= j < 4 ==> stat_in_bounds(#[trigger] stats@[j]),
                total as int == stats@.take(k as int).fold_left(0int, |acc: int, x: u8| acc + x),
                total <= MAX_STAT * k,
            decreases 4 - k,
        {
            assert(stats@.take(k + 1).drop_last() == stats@.take(k as int));
            assert(stat_in_bounds(stats@[k as int]));
            total = total + stats[k];
            k = k + 1;
        }
        assert(stats@.take(4) == stats@);
        proof {
            reveal_with_fuel(Seq::fold_left, 5);
        }
        if total > points_for_level {
            return false;
        }
        true
    }
}

/// The requested new values of the four stats.
pub struct PlacePointsInput {
    pub new_ferocity: u8,
    pub new_fortitude: u8,
    pub new_intellect: u8,
    pub new_acuity: u8,
}

/// Why a point placement was refused.
#[derive(Debug, PartialEq, Eq, Structural, Clone, Copy)]
pub enum PlacePointsError {
    /// Some requested stat is lower than the stored one.
    CannotDecrease,
    /// Some requested stat is above `MAX_STAT`.
    ExceedsMaximum,
    /// The placement spends more points than are available.
    NotEnoughPoints,
}

impl PlacePointsError {
    /// The message reported to the caller.
    pub fn message(&self) -> (r: &'static str)
        ensures
            *self == PlacePointsError::CannotDecrease ==> r@ == "Primary stats cannot be decreased"@,
            *self == PlacePointsError::ExceedsMaximum ==> r@ == "Primary stat exceeds maximum"@,
            *self == PlacePointsError::NotEnoughPoints ==> r@ == "Not enough available points"@,
    {
        match self {
            PlacePointsError::CannotDecrease => "Primary stats cannot be decreased",
            PlacePointsError::ExceedsMaximum => "Primary stat exceeds maximum",
            PlacePointsError::NotEnoughPoints => "Not enough available points",
        }
    }
}

impl PlacePointsInput {
    /// Some requested stat is lower than the corresponding stored stat.
    pub open spec fn decreases_any(&self, cur: PrimaryStatsData) -> bool {
        ||| self.new_ferocity < cur.ferocity
        ||| self.new_fortitude < cur.fortitude
        ||| self.new_intellect < cur.intellect
        ||| self.new_acuity < cur.acuity
    }

    /// Some requested stat is above `MAX_STAT`.
    pub open spec fn exceeds_any(&self) -> bool {
        ||| self.new_ferocity > MAX_STAT
        ||| self.new_fortitude > MAX_STAT
        ||| self.new_intellect > MAX_STAT
        ||| self.new_acuity > MAX_STAT
    }

    /// The sum of the requested stats.
    pub open spec fn total(&self) -> int {
        self.new_ferocity + self.new_fortitude + self.new_intellect + self.new_acuity
    }
}

/// The stats after a successful placement: the requested values, with the
/// points spent taken from the available points.
pub open spec fn placed_stats(cur: PrimaryStatsData, input: PlacePointsInput) -> PrimaryStatsData {
    PrimaryStatsData {
        ferocity: input.new_ferocity,
        fortitude: input.new_fortitude,
        intellect: input.new_intellect,
        acuity: input.new_acuity,
        available_points: (cur.available_points - (input.total() - cur.total())) as u8,
    }
}

/// The outcome of a placement: the first failing check, or the placed stats.
pub open spec fn spec_place_points(cur: PrimaryStatsData, input: PlacePointsInput) -> Result<
    PrimaryStatsData,
    PlacePointsError,
> {
    if input.decreases_any(cur) {
        Err(PlacePointsError::CannotDecrease)
    } else if input.exceeds_any() {
        Err(PlacePointsError::ExceedsMaximum)
    } else if input.total() - cur.total() > cur.available_points {
        Err(PlacePointsError::NotEnoughPoints)
    } else {
        Ok(placed_stats(cur, input))
    }
}

/// Places points into primary stats: each stat can only increase, none may
/// exceed `MAX_STAT`, and the points spent (the increase of the total) must
/// not exceed the available points, which are reduced by the amount spent.
/// The checks are made in that order.
pub fn place_points(cur: &PrimaryStatsData, input: &PlacePointsInput) -> (r: Result<
    PrimaryStatsData,
    PlacePointsError,
>)
    ensures
        input.decreases_any(*cur) ==> r == Err::<PrimaryStatsData, _>(
            PlacePointsError::CannotDecrease,
        ),
        !input.decreases_any(*cur) && input.exceeds_any() ==> r == Err::<PrimaryStatsData, _>(
            PlacePointsError::ExceedsMaximum,
        ),
        !input.decreases_any(*cur) && !input.exceeds_any() && input.total() - cur.total()
            > cur.available_points ==> r == Err::<PrimaryStatsData, _>(
            PlacePointsError::NotEnoughPoints,
        ),
        !input.decreases_any(*cur) && !input.exceeds_any() && input.total() - cur.total()
            <= cur.available_points ==> r == Ok::<_, PlacePointsError>(placed_stats(*cur, *input)),
        r == spec_place_points(*cur, *input),
{
    // Each stat can only increase (never decrease).
    if input.new_ferocity < cur.ferocity || input.new_fortitude < cur.fortitude
        || input.new_intellect < cur.intellect || input.new_acuity < cur.acuity {
        return Err(PlacePointsError::CannotDecrease);
    }
    // Prevent going over max
    if input.new_ferocity > MAX_STAT || input.new_fortitude > MAX_STAT || input.new_intellect
        > MAX_STAT || input.new_acuity > MAX_STAT {
        return Err(PlacePointsError::ExceedsMaximum);
    }
    let current_total: u16 = cur.acuity as u16 + cur.ferocity as u16 + cur.fortitude as u16
        + cur.intellect as u16;
    let sent_total: u16 = input.new_acuity as u16 + input.new_ferocity as u16
        + input.new_fortitude as u16 + input.new_intellect as u16;
    let spent: u8 = (sent_total - current_total) as u8;
    if spent > cur.available_points {
        return Err(PlacePointsError::NotEnoughPoints);
    }
    Ok(
        PrimaryStatsData {
            ferocity: input.new_ferocity,
            fortitude: input.new_fortitude,
            intellect: input.new_intellect,
            acuity: input.new_acuity,
            available_points: cur.available_points - spent,
        },
    )
}

/// The stored primary stats of an actor.
#[derive(Debug, PartialEq, Eq, Structural, Clone, Copy)]
pub struct PrimaryStatsRow {
    pub actor_id: ActorId,
    pub data: PrimaryStatsData,
}

impl PrimaryStatsRow {
    /// The row to write for new stats, and whether the derived secondary
    /// stats must be recomputed (only ferocity feeds them, so only a change
    /// of ferocity asks for it).
    pub fn update(&self, data: PrimaryStatsData) -> (r: (PrimaryStatsRow, bool))
        ensures
            r.0 == (PrimaryStatsRow { actor_id: self.actor_id, data }),
            r.1 == (self.data.ferocity != data.ferocity),
    {
        let original_ferocity = self.data.ferocity;
        let row = PrimaryStatsRow { actor_id: self.actor_id, data };
        (row, original_ferocity != data.ferocity)
    }
}

/// A successful placement conserves points (the stats' total plus the
/// available points is unchanged), lowers no stat, raises none above
/// `MAX_STAT`, and keeps stats that were within bounds within bounds.
pub proof fn law_place_points_conserves(cur: PrimaryStatsData, input: PlacePointsInput)
    requires
        !input.decreases_any(cur),
        !input.exceeds_any(),
        input.total() - cur.total() <= cur.available_points,
    ensures
        placed_stats(cur, input).total() + placed_stats(cur, input).available_points
            == cur.total() + cur.available_points,
        placed_stats(cur, input).ferocity >= cur.ferocity,
        placed_stats(cur, input).fortitude >= cur.fortitude,
        placed_stats(cur, input).intellect >= cur.intellect,
        placed_stats(cur, input).acuity >= cur.acuity,
        placed_stats(cur, input).ferocity <= MAX_STAT,
        placed_stats(cur, input).fortitude <= MAX_STAT,
        placed_stats(cur, input).intellect <= MAX_STAT,
        placed_stats(cur, input).acuity <= MAX_STAT,
        cur.stats_in_bounds() ==> placed_stats(cur, input).stats_in_bounds(),
{
}

/// Fresh stats lie within bounds and total four times the minimum, so they
/// validate exactly when the level grants at least that many points.
pub proof fn law_default_stats_valid(points_for_level: u8)
    ensures
        spec_default_stats().stats_in_bounds(),
        spec_default_stats().total() == 4 * MIN_STAT,
        (spec_default_stats().stats_in_bounds() && spec_default_stats().total()
            <= points_for_level) == (4 * MIN_STAT <= points_for_level),
{
}

/// Point placement in terms of the raw fields: a placement that lowers any
/// stat is refused as a decrease; otherwise one that raises any stat above
/// `MAX_STAT` is refused as exceeding; otherwise one that spends more than
/// the available points is refused; otherwise it succeeds with exactly the
/// requested stats and the available points reduced by the increase of the
/// stats' total.
pub proof fn law_place_points_outcome(cur: PrimaryStatsData, input: PlacePointsInput)
    ensures
        (input.new_ferocity < cur.ferocity || input.new_fortitude < cur.fortitude
            || input.new_intellect < cur.intellect || input.new_acuity < cur.acuity)
            ==> spec_place_points(cur, input) == Err::<PrimaryStatsData, _>(
            PlacePointsError::CannotDecrease,
        ),
        !(input.new_ferocity < cur.ferocity || input.new_fortitude < cur.fortitude
            || input.new_intellect < cur.intellect || input.new_acuity < cur.acuity) && (
        input.new_ferocity > 60 || input.new_fortitude > 60 || input.new_intellect > 60
            || input.new_acuity > 60) ==> spec_place_points(cur, input) == Err::<
            PrimaryStatsData,
            _,
        >(PlacePointsError::ExceedsMaximum),
        spec_place_points(cur, input) == Err::<PrimaryStatsData, _>(
            PlacePointsError::NotEnoughPoints,
        ) <==> (cur.ferocity <= input.new_ferocity <= 60 && cur.fortitude <= input.new_fortitude
            <= 60 && cur.intellect <= input.new_intellect <= 60 && cur.acuity <= input.new_acuity
            <= 60 && (input.new_ferocity - cur.ferocity) + (input.new_fortitude - cur.fortitude) + (
        input.new_intellect - cur.intellect) + (input.new_acuity - cur.acuity)
            > cur.available_points),
        spec_place_points(cur, input) is Ok <==> (cur.ferocity <= input.new_ferocity <= 60
            && cur.fortitude <= input.new_fortitude <= 60 && cur.intellect <= input.new_intellect
            <= 60 && cur.acuity <= input.new_acuity <= 60 && (input.new_ferocity - cur.ferocity) + (
        input.new_fortitude - cur.fortitude) + (input.new_intellect - cur.intellect) + (
        input.new_acuity - cur.acuity) <= cur.available_points),
        spec_place_points(cur, input) matches Ok(new) ==> new.ferocity == input.new_ferocity
            && new.fortitude == input.new_fortitude && new.intellect == input.new_intellect
            && new.acuity == input.new_acuity && new.available_points as int
            == cur.available_points - ((input.new_ferocity - cur.ferocity) + (input.new_fortitude
            - cur.fortitude) + (input.new_intellect - cur.intellect) + (input.new_acuity
            - cur.acuity)),
{
}

/// Validation in terms of the raw fields: every stat within `[10, 60]` and
/// the sum of the four stats within the level's points.
pub proof fn law_validate_fields(d: PrimaryStatsData, points_for_level: u8)
    ensures
        (d.stats_in_bounds() && d.total() <= points_for_level) <==> (10 <= d.ferocity <= 60 && 10
            <= d.fortitude <= 60 && 10 <= d.intellect <= 60 && 10 <= d.acuity <= 60 && d.ferocity
            + d.fortitude + d.intellect + d.acuity <= points_for_level),
{
}

} // verus!
