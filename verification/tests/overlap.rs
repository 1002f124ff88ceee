use veil_server::overlap::{scan_overlap_neighbors, NeighborFacts};

fn idle_player(since: i64, overlaps: bool) -> NeighborFacts {
    NeighborFacts {
        is_self: false,
        is_player: true,
        should_move: false,
        idle_since_us: Some(since),
        transform_found: true,
        overlaps,
    }
}

#[test]
fn no_neighbors() {
    let scan = scan_overlap_neighbors(100, &[], 8);
    assert!(!scan.anchored);
    assert!(scan.pushers.is_empty());
}

#[test]
fn older_neighbors_push() {
    let ns = [idle_player(50, true), idle_player(60, false), idle_player(100, true)];
    let scan = scan_overlap_neighbors(100, &ns, 8);
    assert!(!scan.anchored);
    assert_eq!(scan.pushers, vec![0, 2]);
}

#[test]
fn newer_overlapping_neighbor_anchors() {
    let ns = [idle_player(50, true), idle_player(150, true), idle_player(20, true)];
    let scan = scan_overlap_neighbors(100, &ns, 8);
    assert!(scan.anchored);
    assert_eq!(scan.pushers, vec![0]);
}

#[test]
fn ineligible_neighbors_are_passed_over() {
    let mut me = idle_player(10, true);
    me.is_self = true;
    let mut npc = idle_player(10, true);
    npc.is_player = false;
    let mut moving = idle_player(10, true);
    moving.should_move = true;
    let mut busy = idle_player(10, true);
    busy.idle_since_us = None;
    let mut lost = idle_player(10, true);
    lost.transform_found = false;
    let ns = [me, npc, moving, busy, lost, idle_player(10, true)];
    let scan = scan_overlap_neighbors(100, &ns, 1);
    assert!(!scan.anchored);
    assert_eq!(scan.pushers, vec![5]);
}

#[test]
fn neighbor_cap_stops_the_scan() {
    let ns = [idle_player(1, false), idle_player(2, true), idle_player(3, true), idle_player(500, true)];
    let scan = scan_overlap_neighbors(100, &ns, 2);
    assert!(!scan.anchored);
    assert_eq!(scan.pushers, vec![1]);
    let scan = scan_overlap_neighbors(100, &ns, 0);
    assert!(scan.pushers.is_empty());
    assert!(!scan.anchored);
}
