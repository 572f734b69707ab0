//! The data model: scores, stamps, and the timeline invariant.

use vstd::prelude::*;

verus! {

/// Goals scored by each side so far. Both tallies are non-negative.
#[derive(Debug, Clone, Copy)]
pub struct Score {
    pub home: i32,
    pub away: i32,
}

/// A snapshot: as of `offset`, the score is `score`.
#[derive(Debug, Clone, Copy)]
pub struct Stamp {
    pub offset: i32,
    pub score: Score,
}

/// Both tallies of a score are non-negative.
pub open spec fn wf_score(s: Score) -> bool {
    0 <= s.home && 0 <= s.away
}

/// The score differential recorded by a stamp: home minus away.
pub open spec fn stamp_diff(s: Stamp) -> int {
    s.score.home - s.score.away
}

/// The sentinel stamp every timeline starts with: offset 0, score 0-0.
pub open spec fn initial_stamp() -> Stamp {
    Stamp { offset: 0, score: Score { home: 0, away: 0 } }
}

/// Offsets are strictly increasing along the timeline.
pub open spec fn offsets_increasing(t: Seq<Stamp>) -> bool {
    forall|i: int, j: int|
        #![trigger t[i], t[j]]
        0 <= i < j < t.len() ==> t[i].offset < t[j].offset
}

/// Every stamp on the timeline carries a well-formed score.
pub open spec fn scores_wf(t: Seq<Stamp>) -> bool {
    forall|i: int| 0 <= i < t.len() ==> wf_score(#[trigger] t[i].score)
}

/// Neither side's tally ever decreases along the timeline.
pub open spec fn scores_non_decreasing(t: Seq<Stamp>) -> bool {
    forall|i: int, j: int|
        #![trigger t[i], t[j]]
        0 <= i <= j < t.len() ==> t[i].score.home <= t[j].score.home
            && t[i].score.away <= t[j].score.away
}

/// The timeline invariant: non-empty, beginning with the sentinel stamp,
/// with strictly increasing offsets and well-formed scores throughout.
pub open spec fn wf_timeline(t: Seq<Stamp>) -> bool {
    &&& 0 < t.len()
    &&& t[0] == initial_stamp()
    &&& offsets_increasing(t)
    &&& scores_wf(t)
}

/// Decides at run time whether a slice of stamps satisfies the timeline
/// invariant, so that unverified callers can guard a query.
pub fn check_timeline(game_stamps: &[Stamp]) -> (r: bool)
    ensures
        r == wf_timeline(game_stamps@),
{
    let n = game_stamps.len();
    if n == 0 {
        return false;
    }
    let first = game_stamps[0];
    if !(first.offset == 0 && first.score.home == 0 && first.score.away == 0) {
        return false;
    }
    let mut k: usize = 1;
    while k < n
        invariant
            n == game_stamps@.len(),
            1 <= k <= n,
            game_stamps@[0] == initial_stamp(),
            forall|i: int, j: int|
                #![trigger game_stamps@[i], game_stamps@[j]]
                0 <= i < j < k ==> game_stamps@[i].offset < game_stamps@[j].offset,
            forall|i: int| 0 <= i < k ==> wf_score(#[trigger] game_stamps@[i].score),
        decreases n - k,
    {
        let prev = game_stamps[k - 1];
        let cur = game_stamps[k];
        if prev.offset >= cur.offset {
            return false;
        }
        if cur.score.home < 0 || cur.score.away < 0 {
            return false;
        }
        k = k + 1;
    }
    true
}

} // verus!
