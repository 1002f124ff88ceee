use veil_server::stat::health::{HealthData, HealthRow};
use veil_server::stat::mana::{ManaData, ManaRow};
use veil_server::stat::primary_stats::{
    place_points, PlacePointsError, PlacePointsInput, PrimaryStatsData, PrimaryStatsRow,
};

fn health_row(current: u16, max: u16) -> HealthRow {
    HealthRow { actor_id: 7, data: HealthData { current, max }, is_full: current == max }
}

fn mana_row(current: u16, max: u16) -> ManaRow {
    ManaRow { owner: 9, is_full: current == max, data: ManaData { current, max } }
}

#[test]
fn health_new_is_full() {
    let d = HealthData::new(120);
    assert_eq!(d, HealthData { current: 120, max: 120 });
}

#[test]
fn health_compute_max_values() {
    assert_eq!(HealthData::compute_max(0, 0), 200);
    assert_eq!(HealthData::compute_max(1, 10), 200 + 5 + 90);
    assert_eq!(HealthData::compute_max(10, 20), 2500);
    assert_eq!(HealthData::compute_max(50, 60), 39700);
}

#[test]
fn health_compute_max_caps_level_and_fortitude() {
    assert_eq!(HealthData::compute_max(255, 255), HealthData::compute_max(50, 60));
    assert_eq!(HealthData::compute_max(70, 30), HealthData::compute_max(50, 30));
    assert_eq!(HealthData::compute_max(30, 90), HealthData::compute_max(30, 60));
}

#[test]
fn pool_max_is_monotone() {
    let mut prev = 0u16;
    for level in 0..=60u8 {
        let v = HealthData::compute_max(level, 40);
        assert!(v >= prev);
        prev = v;
    }
}

#[test]
fn health_and_mana_share_formula() {
    for level in [0u8, 1, 9, 25, 50, 51, 200] {
        for stat in [0u8, 10, 33, 60, 61, 255] {
            assert_eq!(HealthData::compute_max(level, stat), ManaData::compute_max(level, stat));
        }
    }
}

#[test]
fn health_insert_clamps_current() {
    let row = HealthRow::insert(3, HealthData { current: 500, max: 300 });
    assert_eq!(row, HealthRow { actor_id: 3, data: HealthData { current: 300, max: 300 }, is_full: true });
    let row = HealthRow::insert(3, HealthData { current: 100, max: 300 });
    assert_eq!(row.data.current, 100);
    assert!(!row.is_full);
}

#[test]
fn health_add_saturates_and_clamps() {
    assert_eq!(health_row(10, 100).add(0), None);
    assert_eq!(health_row(10, 100).add(50), Some(health_row(60, 100)));
    assert_eq!(health_row(90, 100).add(50), Some(health_row(100, 100)));
    assert_eq!(health_row(100, 100).add(1), Some(health_row(100, 100)));
    assert_eq!(health_row(65000, 65535).add(u16::MAX), Some(health_row(65535, 65535)));
}

#[test]
fn health_sub_saturates_at_zero() {
    assert_eq!(health_row(10, 100).sub(0), None);
    assert_eq!(health_row(60, 100).sub(50), Some(health_row(10, 100)));
    assert_eq!(health_row(10, 100).sub(50), Some(health_row(0, 100)));
    // A row stored above its max is clamped by the write.
    let odd = HealthRow { actor_id: 7, data: HealthData { current: 150, max: 100 }, is_full: false };
    assert_eq!(odd.sub(10), Some(health_row(100, 100)));
}

#[test]
fn health_set_current_and_max() {
    assert_eq!(health_row(10, 100).set_current(10), None);
    assert_eq!(health_row(10, 100).set_current(40), Some(health_row(40, 100)));
    assert_eq!(health_row(10, 100).set_current(400), Some(health_row(100, 100)));
    assert_eq!(health_row(10, 100).set_max(100), None);
    assert_eq!(health_row(80, 100).set_max(50), Some(health_row(50, 50)));
    assert_eq!(health_row(80, 100).set_max(200), Some(health_row(80, 200)));
}

#[test]
fn health_writes_are_well_formed() {
    for (c, m) in [(0u16, 0u16), (5, 10), (10, 10), (20, 10)] {
        let row = HealthRow { actor_id: 1, data: HealthData { current: c, max: m }, is_full: false };
        for a in [1u16, 3, 10, u16::MAX] {
            for r in [row.add(a), row.sub(a), row.set_current(a), row.set_max(a)].into_iter().flatten() {
                assert!(r.data.current <= r.data.max);
                assert_eq!(r.is_full, r.data.current == r.data.max);
            }
        }
    }
}

#[test]
fn mana_new_and_compute_max() {
    assert_eq!(ManaData::new(80), ManaData { current: 80, max: 80 });
    assert_eq!(ManaData::compute_max(10, 20), 2500);
    assert_eq!(ManaData::compute_max(60, 70), 39700);
}

#[test]
fn mana_insert_clamps_current() {
    let row = ManaRow::insert(4, ManaData { current: 70, max: 50 });
    assert_eq!(row, ManaRow { owner: 4, is_full: true, data: ManaData { current: 50, max: 50 } });
}

#[test]
fn mana_add_skips_full_rows() {
    assert_eq!(mana_row(10, 100).add(0), None);
    assert_eq!(mana_row(100, 100).add(5), None);
    assert_eq!(mana_row(10, 100).add(5), Some(mana_row(15, 100)));
    assert_eq!(mana_row(98, 100).add(5), Some(mana_row(100, 100)));
}

#[test]
fn mana_sub_skips_empty_rows() {
    assert_eq!(mana_row(0, 100).sub(5), None);
    assert_eq!(mana_row(10, 100).sub(0), None);
    assert_eq!(mana_row(10, 100).sub(5), Some(mana_row(5, 100)));
    assert_eq!(mana_row(3, 100).sub(5), Some(mana_row(0, 100)));
}

#[test]
fn mana_set_current_and_max() {
    assert_eq!(mana_row(10, 100).set_current(10), None);
    assert_eq!(mana_row(10, 100).set_current(250), Some(mana_row(100, 100)));
    assert_eq!(mana_row(10, 100).set_max(100), None);
    assert_eq!(mana_row(70, 100).set_max(60), Some(mana_row(60, 60)));
}

#[test]
fn mana_and_health_agree_on_well_formed_rows() {
    for (c, m) in [(0u16, 10u16), (4, 10), (10, 10)] {
        for a in [1u16, 5, 20] {
            if let Some(mr) = mana_row(c, m).add(a) {
                let hr = health_row(c, m).add(a).unwrap();
                assert_eq!((mr.data.current, mr.data.max), (hr.data.current, hr.data.max));
            } else {
                let hr = health_row(c, m).add(a).unwrap();
                assert_eq!(hr.data, HealthData { current: c, max: m });
            }
            if let Some(mr) = mana_row(c, m).sub(a) {
                let hr = health_row(c, m).sub(a).unwrap();
                assert_eq!(mr.data.current, hr.data.current);
            }
        }
    }
}

fn stats(f: u8, fo: u8, i: u8, a: u8, p: u8) -> PrimaryStatsData {
    PrimaryStatsData { ferocity: f, fortitude: fo, intellect: i, acuity: a, available_points: p }
}

#[test]
fn primary_default_is_minimum() {
    assert_eq!(PrimaryStatsData::default(), stats(10, 10, 10, 10, 0));
}

#[test]
fn primary_validate() {
    let base = PrimaryStatsData::default();
    assert!(base.validate(40));
    assert!(!base.validate(39));
    assert!(stats(60, 60, 60, 60, 0).validate(240));
    assert!(!stats(60, 60, 60, 60, 0).validate(239));
    assert!(!stats(9, 10, 10, 10, 0).validate(255));
    assert!(!stats(10, 61, 10, 10, 0).validate(255));
}

#[test]
fn place_points_success_conserves_points() {
    let cur = stats(10, 10, 10, 10, 5);
    let input = PlacePointsInput { new_ferocity: 12, new_fortitude: 11, new_intellect: 10, new_acuity: 10 };
    let new = place_points(&cur, &input).unwrap();
    assert_eq!(new, stats(12, 11, 10, 10, 2));
    let before = 40 + 5;
    let after = new.ferocity as u32 + new.fortitude as u32 + new.intellect as u32 + new.acuity as u32
        + new.available_points as u32;
    assert_eq!(before, after);
}

#[test]
fn place_points_spending_everything() {
    let cur = stats(10, 10, 10, 10, 3);
    let input = PlacePointsInput { new_ferocity: 13, new_fortitude: 10, new_intellect: 10, new_acuity: 10 };
    assert_eq!(place_points(&cur, &input), Ok(stats(13, 10, 10, 10, 0)));
}

#[test]
fn place_points_errors() {
    let cur = stats(20, 10, 10, 10, 3);
    let lower = PlacePointsInput { new_ferocity: 19, new_fortitude: 70, new_intellect: 10, new_acuity: 10 };
    assert_eq!(place_points(&cur, &lower), Err(PlacePointsError::CannotDecrease));
    let over = PlacePointsInput { new_ferocity: 20, new_fortitude: 61, new_intellect: 10, new_acuity: 10 };
    assert_eq!(place_points(&cur, &over), Err(PlacePointsError::ExceedsMaximum));
    let greedy = PlacePointsInput { new_ferocity: 22, new_fortitude: 12, new_intellect: 10, new_acuity: 10 };
    assert_eq!(place_points(&cur, &greedy), Err(PlacePointsError::NotEnoughPoints));
}

#[test]
fn place_points_error_messages() {
    assert_eq!(PlacePointsError::CannotDecrease.message(), "Primary stats cannot be decreased");
    assert_eq!(PlacePointsError::ExceedsMaximum.message(), "Primary stat exceeds maximum");
    assert_eq!(PlacePointsError::NotEnoughPoints.message(), "Not enough available points");
}

#[test]
fn primary_row_update_flags_ferocity_change() {
    let row = PrimaryStatsRow { actor_id: 5, data: stats(10, 10, 10, 10, 0) };
    let (new_row, refresh) = row.update(stats(10, 12, 10, 10, 0));
    assert_eq!(new_row, PrimaryStatsRow { actor_id: 5, data: stats(10, 12, 10, 10, 0) });
    assert!(!refresh);
    let (_, refresh) = row.update(stats(11, 10, 10, 10, 0));
    assert!(refresh);
}
