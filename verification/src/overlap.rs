//! Which neighbors push an idle player out of an overlap.
//!
//! Idle players that overlap other idle players are nudged apart. Only the
//! most recently idle actor of an overlapping pair moves: one that has been
//! idle longer than some overlapping neighbor stays anchored. The number of
//! neighbors examined per actor is capped.
//!
//! The overlap geometry is measured by the caller; this module decides which
//! neighbors count.
use vstd::prelude::*;

verus! {

/// What is known about one candidate neighbor of an idle player.
#[derive(Debug, PartialEq, Eq, Structural, Clone, Copy)]
pub struct NeighborFacts {
    /// The neighbor is the actor itself.
    pub is_self: bool,
    /// The neighbor is a player.
    pub is_player: bool,
    /// The neighbor is moving.
    pub should_move: bool,
    /// Since when the neighbor is idle (microseconds), when its intent is
    /// idle.
    pub idle_since_us: Option<i64>,
    /// The neighbor's transform row was found.
    pub transform_found: bool,
    /// The separation push against this neighbor is not zero.
    pub overlaps: bool,
}

/// A neighbor takes part in the overlap test: another idle player with a
/// transform.
pub open spec fn eligible(n: NeighborFacts) -> bool {
    !n.is_self && n.is_player && !n.should_move && n.idle_since_us.is_some() && n.transform_found
}

/// The state of the neighbor scan.
pub struct ScanState {
    pub stopped: bool,
    pub anchored: bool,
    pub checked: nat,
    pub pushers: Seq<usize>,
}

/// The scan state after examining the first `k` neighbors.
pub open spec fn scan_prefix(
    self_idle_since_us: i64,
    neighbors: Seq<NeighborFacts>,
    max_neighbors: usize,
    k: nat,
) -> ScanState
    decreases k,
{
    if k == 0 || k > neighbors.len() {
        ScanState { stopped: false, anchored: false, checked: 0, pushers: seq![] }
    } else {
        let s = scan_prefix(self_idle_since_us, neighbors, max_neighbors, (k - 1) as nat);
        let n = neighbors[k - 1];
        if s.stopped {
            s
        } else if s.checked >= max_neighbors {
            ScanState { stopped: true, ..s }
        } else if !eligible(n) {
            s
        } else if !n.overlaps {
            ScanState { checked: s.checked + 1, ..s }
        } else if self_idle_since_us < n.idle_since_us.unwrap() {
            ScanState { stopped: true, anchored: true, ..s }
        } else {
            ScanState { checked: s.checked + 1, pushers: s.pushers.push((k - 1) as usize), ..s }
        }
    }
}

/// Result of scanning the neighbors of an idle player.
pub struct OverlapScan {
    /// The player overlaps a neighbor that became idle after it did, and so
    /// stays where it is.
    pub anchored: bool,
    /// Indices of the neighbors whose separation push is accumulated.
    pub pushers: Vec<usize>,
}

/// Scans the neighbors of an idle player in order. Neighbors that are the
/// player itself, non-players, moving, not idle, or without a transform are
/// passed over. Every other neighbor counts toward `max_neighbors`; once
/// that many were counted the scan stops. An overlapping neighbor that
/// became idle after the player anchors the player and ends the scan;
/// every other overlapping neighbor contributes its push.
pub fn scan_overlap_neighbors(
    self_idle_since_us: i64,
    neighbors: &[NeighborFacts],
    max_neighbors: usize,
) -> (r: OverlapScan)
    ensures
        r.anchored == scan_prefix(
            self_idle_since_us,
            neighbors@,
            max_neighbors,
            neighbors@.len(),
        ).anchored,
        r.pushers@ == scan_prefix(
            self_idle_since_us,
            neighbors@,
            max_neighbors,
            neighbors@.len(),
        ).pushers,
        r.anchored == (exists|j: int|
            0 <= j < neighbors@.len() && anchors_at(
                self_idle_since_us,
                neighbors@,
                max_neighbors,
                j,
            )),
        forall|j: int|
            0 <= j < neighbors@.len() ==> (r.pushers@.contains(j as usize) <==> pushes_at(
                self_idle_since_us,
                neighbors@,
                max_neighbors,
                j,
            )),
{
    let mut checked: usize = 0;
    let mut anchored = false;
    let mut pushers: Vec<usize> = Vec::new();
    let mut i: usize = 0;
    while i < neighbors.len()
        invariant_except_break
            0 <= i <= neighbors@.len(),
            !scan_prefix(self_idle_since_us, neighbors@, max_neighbors, i as nat).stopped,
            checked == scan_prefix(self_idle_since_us, neighbors@, max_neighbors, i as nat).checked,
            !anchored,
            !scan_prefix(self_idle_since_us, neighbors@, max_neighbors, i as nat).anchored,
            pushers@ == scan_prefix(self_idle_since_us, neighbors@, max_neighbors, i as nat).pushers,
            checked <= i,
        ensures
            anchored == scan_prefix(
                self_idle_since_us,
                neighbors@,
                max_neighbors,
                neighbors@.len(),
            ).anchored,
            pushers@ == scan_prefix(
                self_idle_since_us,
                neighbors@,
                max_neighbors,
                neighbors@.len(),
            ).pushers,
        decreases neighbors@.len() - i,
    {
        proof {
            lemma_scan_facts(self_idle_since_us, neighbors@, max_neighbors, (i + 1) as nat);
        }
        if checked >= max_neighbors {
            proof {
                lemma_scan_stopped_stays(
                    self_idle_since_us,
                    neighbors@,
                    max_neighbors,
                    (i + 1) as nat,
                    neighbors@.len(),
                );
            }
            break;
        }
        let n = neighbors[i];
        if n.is_self || !n.is_player || n.should_move || !n.transform_found {
            i = i + 1;
            continue;
        }
        let other_idle_since_us = match n.idle_since_us {
            Some(since) => since,
            None => {
                i = i + 1;
                continue;
            },
        };
        if !n.overlaps {
            checked = checked + 1;
            i = i + 1;
            continue;
        }
        if self_idle_since_us < other_idle_since_us {
            anchored = true;
            proof {
                lemma_scan_stopped_stays(
                    self_idle_since_us,
                    neighbors@,
                    max_neighbors,
                    (i + 1) as nat,
                    neighbors@.len(),
                );
            }
            break;
        }
        pushers.push(i);
        checked = checked + 1;
        i = i + 1;
    }
    proof {
        assert(neighbors@.len() == neighbors.len());
        law_scan_characterized(self_idle_since_us, neighbors@, max_neighbors);
    }
    OverlapScan { anchored, pushers }
}

/// Once the scan has stopped, later neighbors change nothing.
proof fn lemma_scan_stopped_stays(
    self_idle_since_us: i64,
    neighbors: Seq<NeighborFacts>,
    max_neighbors: usize,
    k: nat,
    m: nat,
)
    requires
        k <= m <= neighbors.len(),
        scan_prefix(self_idle_since_us, neighbors, max_neighbors, k).stopped,
    ensures
        scan_prefix(self_idle_since_us, neighbors, max_neighbors, m) == scan_prefix(
            self_idle_since_us,
            neighbors,
            max_neighbors,
            k,
        ),
    decreases m - k,
{
    if m > k {
        lemma_scan_stopped_stays(self_idle_since_us, neighbors, max_neighbors, k, (m - 1) as nat);
    }
}

/// Facts that hold of every prefix of the scan.
proof fn lemma_scan_facts(
    self_idle_since_us: i64,
    neighbors: Seq<NeighborFacts>,
    max_neighbors: usize,
    k: nat,
)
    requires
        k <= neighbors.len() <= usize::MAX,
    ensures
        ({
            let s = scan_prefix(self_idle_since_us, neighbors, max_neighbors, k);
            &&& s.pushers.len() <= s.checked <= max_neighbors
            &&& s.anchored ==> s.stopped
            &&& forall|j: int|
                0 <= j < s.pushers.len() ==> {
                    let p = #[trigger] s.pushers[j] as int;
                    &&& 0 <= p < k
                    &&& eligible(neighbors[p])
                    &&& neighbors[p].overlaps
                    &&& neighbors[p].idle_since_us.unwrap() <= self_idle_since_us
                }
        }),
    decreases k,
{
    if k > 0 {
        lemma_scan_facts(self_idle_since_us, neighbors, max_neighbors, (k - 1) as nat);
        let prev = scan_prefix(self_idle_since_us, neighbors, max_neighbors, (k - 1) as nat);
        let s = scan_prefix(self_idle_since_us, neighbors, max_neighbors, k);
        let n = neighbors[k - 1];
        if !prev.stopped && prev.checked < max_neighbors && eligible(n) && n.overlaps
            && !(self_idle_since_us < n.idle_since_us.unwrap()) {
            assert(s.pushers == prev.pushers.push((k - 1) as usize));
            assert forall|j: int| 0 <= j < s.pushers.len() implies {
                let p = #[trigger] s.pushers[j] as int;
                &&& 0 <= p < k
                &&& eligible(neighbors[p])
                &&& neighbors[p].overlaps
                &&& neighbors[p].idle_since_us.unwrap() <= self_idle_since_us
            } by {
                if j < prev.pushers.len() {
                    assert(s.pushers[j] == prev.pushers[j]);
                }
            }
        }
    }
}

/// Only eligible, overlapping neighbors that have been idle at least as
/// long as the player push it, and no more of them than the cap.
pub proof fn law_pushers_are_eligible_and_capped(
    self_idle_since_us: i64,
    neighbors: Seq<NeighborFacts>,
    max_neighbors: usize,
)
    requires
        neighbors.len() <= usize::MAX,
    ensures
        ({
            let s = scan_prefix(self_idle_since_us, neighbors, max_neighbors, neighbors.len());
            &&& s.pushers.len() <= max_neighbors
            &&& forall|j: int|
                0 <= j < s.pushers.len() ==> {
                    let p = #[trigger] s.pushers[j] as int;
                    &&& 0 <= p < neighbors.len()
                    &&& eligible(neighbors[p])
                    &&& neighbors[p].overlaps
                    &&& neighbors[p].idle_since_us.unwrap() <= self_idle_since_us
                }
        }),
{
    lemma_scan_facts(self_idle_since_us, neighbors, max_neighbors, neighbors.len());
}

/// Number of eligible neighbors among the first `k`.
pub open spec fn eligible_before(neighbors: Seq<NeighborFacts>, k: int) -> nat
    decreases k,
{
    if k <= 0 {
        0
    } else {
        eligible_before(neighbors, k - 1) + if eligible(neighbors[k - 1]) { 1nat } else { 0nat }
    }
}

/// Neighbor `j` anchors the player: it is eligible, overlaps the player,
/// became idle after it, and fewer than `max_neighbors` eligible neighbors
/// come before it.
pub open spec fn anchors_at(
    self_idle_since_us: i64,
    neighbors: Seq<NeighborFacts>,
    max_neighbors: usize,
    j: int,
) -> bool {
    &&& eligible(neighbors[j])
    &&& neighbors[j].overlaps
    &&& self_idle_since_us < neighbors[j].idle_since_us.unwrap()
    &&& eligible_before(neighbors, j) < max_neighbors
}

/// Neighbor `j` pushes the player: it is eligible, overlaps the player, has
/// been idle at least as long, fewer than `max_neighbors` eligible neighbors
/// come before it, and no earlier neighbor anchors the player.
pub open spec fn pushes_at(
    self_idle_since_us: i64,
    neighbors: Seq<NeighborFacts>,
    max_neighbors: usize,
    j: int,
) -> bool {
    &&& eligible(neighbors[j])
    &&& neighbors[j].overlaps
    &&& neighbors[j].idle_since_us.unwrap() <= self_idle_since_us
    &&& eligible_before(neighbors, j) < max_neighbors
    &&& forall|i: int| 0 <= i < j ==> !anchors_at(self_idle_since_us, neighbors, max_neighbors, i)
}

proof fn lemma_eligible_before_monotone(neighbors: Seq<NeighborFacts>, a: int, b: int)
    requires
        a <= b,
    ensures
        eligible_before(neighbors, a) <= eligible_before(neighbors, b),
    decreases b - a,
{
    if a < b {
        lemma_eligible_before_monotone(neighbors, a, b - 1);
    }
}

/// The scan state of every prefix, described by the neighbors alone.
proof fn lemma_scan_characterized(
    self_idle_since_us: i64,
    neighbors: Seq<NeighborFacts>,
    max_neighbors: usize,
    k: nat,
)
    requires
        k <= neighbors.len() <= usize::MAX,
    ensures
        ({
            let s = scan_prefix(self_idle_since_us, neighbors, max_neighbors, k);
            &&& s.anchored == (exists|j: int|
                0 <= j < k && anchors_at(self_idle_since_us, neighbors, max_neighbors, j))
            &&& !s.anchored ==> s.checked == (if eligible_before(neighbors, k as int)
                < max_neighbors {
                eligible_before(neighbors, k as int)
            } else {
                max_neighbors as nat
            })
            &&& s.stopped && !s.anchored ==> eligible_before(neighbors, k as int) >= max_neighbors
            &&& forall|i: int| 0 <= i < s.pushers.len() ==> #[trigger] s.pushers[i] < k
            &&& forall|j: int|
                0 <= j < k ==> (s.pushers.contains(j as usize) <==> pushes_at(
                    self_idle_since_us,
                    neighbors,
                    max_neighbors,
                    j,
                ))
        }),
    decreases k,
{
    if k > 0 {
        let km = (k - 1) as nat;
        lemma_scan_characterized(self_idle_since_us, neighbors, max_neighbors, km);
        lemma_scan_facts(self_idle_since_us, neighbors, max_neighbors, km);
        let p = scan_prefix(self_idle_since_us, neighbors, max_neighbors, km);
        let s = scan_prefix(self_idle_since_us, neighbors, max_neighbors, k);
        let n = neighbors[k - 1];
        let j0 = k - 1;
        assert(eligible_before(neighbors, k as int) == eligible_before(neighbors, km as int) + if eligible(n) { 1nat } else { 0nat });
        if p.stopped || p.checked >= max_neighbors || !eligible(n) || !n.overlaps
            || self_idle_since_us < n.idle_since_us.unwrap() {
            if !p.anchored && !(!p.stopped && p.checked < max_neighbors && eligible(n)
                && n.overlaps) {
                assert(!anchors_at(self_idle_since_us, neighbors, max_neighbors, j0));
            }
            if !p.stopped && p.checked < max_neighbors && eligible(n) && n.overlaps {
                assert(anchors_at(self_idle_since_us, neighbors, max_neighbors, j0));
            }
            assert(!pushes_at(self_idle_since_us, neighbors, max_neighbors, j0));
            assert(s.pushers == p.pushers);
            assert(s.anchored == (exists|j: int|
                0 <= j < k && anchors_at(self_idle_since_us, neighbors, max_neighbors, j)));
        } else {
            assert(!anchors_at(self_idle_since_us, neighbors, max_neighbors, j0));
            assert(pushes_at(self_idle_since_us, neighbors, max_neighbors, j0));
            assert(s.pushers == p.pushers.push(j0 as usize));
            assert forall|j: int| 0 <= j < k implies (s.pushers.contains(j as usize) <==> pushes_at(
                self_idle_since_us,
                neighbors,
                max_neighbors,
                j,
            )) by {
                if j < km {
                    if p.pushers.contains(j as usize) {
                        let i = choose|i: int| 0 <= i < p.pushers.len() && p.pushers[i] == j as usize;
                        assert(s.pushers[i] == j as usize);
                    }
                    if s.pushers.contains(j as usize) {
                        let i = choose|i: int| 0 <= i < s.pushers.len() && s.pushers[i] == j as usize;
                        if i < p.pushers.len() {
                            assert(p.pushers[i] == j as usize);
                        }
                    }
                } else {
                    assert(s.pushers[s.pushers.len() - 1] == j as usize);
                }
            }
            assert(s.anchored == (exists|j: int|
                0 <= j < k && anchors_at(self_idle_since_us, neighbors, max_neighbors, j)));
        }
    }
}

/// What the scan of an idle player's neighbors gives, in terms of the
/// neighbors alone: the player is anchored exactly when some neighbor
/// within the cap is eligible, overlaps it and became idle after it; and the
/// pushers are exactly the eligible, overlapping neighbors within the cap
/// that have been idle at least as long as the player and come before any
/// anchoring neighbor. A neighbor that does not overlap the player never
/// anchors it.
pub proof fn law_scan_characterized(
    self_idle_since_us: i64,
    neighbors: Seq<NeighborFacts>,
    max_neighbors: usize,
)
    requires
        neighbors.len() <= usize::MAX,
    ensures
        ({
            let s = scan_prefix(self_idle_since_us, neighbors, max_neighbors, neighbors.len());
            &&& s.anchored == (exists|j: int|
                0 <= j < neighbors.len() && anchors_at(
                    self_idle_since_us,
                    neighbors,
                    max_neighbors,
                    j,
                ))
            &&& forall|j: int|
                0 <= j < neighbors.len() ==> (s.pushers.contains(j as usize) <==> pushes_at(
                    self_idle_since_us,
                    neighbors,
                    max_neighbors,
                    j,
                ))
        }),
{
    lemma_scan_characterized(self_idle_since_us, neighbors, max_neighbors, neighbors.len());
}

} // verus!
