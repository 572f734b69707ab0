//! Point-in-time score queries over a timeline, by binary search.

use vstd::prelude::*;
use crate::timeline::{Stamp, stamp_diff, wf_timeline};

verus! {

/// The stamp at index `i` is the floor of `offset`: the most recent stamp at
/// or before it, with the next stamp strictly after it.
pub open spec fn floor_at(t: Seq<Stamp>, offset: int, i: int) -> bool {
    t[i].offset <= offset && offset < t[i + 1].offset
}

/// Returns `(differential, offset)`: the score differential (home minus away)
/// in effect at `offset`, and the echoed query offset.
///
/// Offsets at or beyond the last stamp report the final differential; offsets
/// at or before the start report zero; in between, the differential of the
/// floor stamp — the latest stamp whose offset does not exceed the query.
pub fn get_score(game_stamps: &[Stamp], offset: i32) -> (r: (i32, i32))
    requires
        wf_timeline(game_stamps@),
    ensures
        r.1 == offset,
        offset >= game_stamps@.last().offset ==> r.0 == stamp_diff(game_stamps@.last()),
        offset <= 0 ==> r.0 == 0,
        forall|i: int|
            0 <= i < game_stamps@.len() - 1
                && #[trigger] floor_at(game_stamps@, offset as int, i)
                ==> r.0 == stamp_diff(game_stamps@[i]),
        forall|i: int|
            0 <= i < game_stamps@.len() && #[trigger] game_stamps@[i].offset == offset
                ==> r.0 == stamp_diff(game_stamps@[i]),
{
    let ghost t = game_stamps@;
    let right_index = game_stamps.len() - 1;
    let right_stamp = game_stamps[right_index];
    if offset >= right_stamp.offset {
        proof {
            assert forall|i: int|
                0 <= i < t.len() - 1 && floor_at(t, offset as int, i)
                implies right_stamp.score.home - right_stamp.score.away == stamp_diff(t[i]) by {
                assert(t[i + 1].offset <= t[t.len() - 1].offset);
            }
        }
        return (right_stamp.score.home - right_stamp.score.away, offset);
    } else if offset <= 0 {
        proof {
            assert forall|i: int|
                0 <= i < t.len() - 1 && floor_at(t, offset as int, i) implies 0 == stamp_diff(
                t[i],
            ) by {
                assert(t[0].offset == 0);
                if i > 0 {
                    assert(t[0].offset < t[i].offset);
                }
            }
            assert forall|i: int|
                0 <= i < t.len() && t[i].offset == offset implies 0 == stamp_diff(t[i]) by {
                if i > 0 {
                    assert(t[0].offset < t[i].offset);
                }
            }
        }
        return (0, offset);
    }
    let mut left: usize = 0;
    let mut right: usize = right_index;
    while left != right - 1
        invariant
            wf_timeline(t),
            t == game_stamps@,
            left < right < t.len(),
            t[left as int].offset < offset,
            offset < t[right as int].offset,
        decreases right - left,
    {
        let middle = left + (right - left) / 2;
        let middle_stamp = game_stamps[middle];
        if middle_stamp.offset > offset {
            right = middle;
        } else if middle_stamp.offset < offset {
            left = middle;
        } else {
            proof {
                assert forall|i: int|
                    0 <= i < t.len() - 1 && floor_at(t, offset as int, i)
                    implies middle_stamp.score.home - middle_stamp.score.away == stamp_diff(
                    t[i],
                ) by {
                    if i < middle {
                        assert(t[i + 1].offset <= t[middle as int].offset);
                    }
                    if i > middle {
                        assert(t[middle as int].offset < t[i].offset);
                    }
                }
                assert forall|i: int|
                    0 <= i < t.len() && t[i].offset == offset
                    implies middle_stamp.score.home - middle_stamp.score.away == stamp_diff(
                    t[i],
                ) by {
                    if i < middle {
                        assert(t[i].offset < t[middle as int].offset);
                    }
                    if i > middle {
                        assert(t[middle as int].offset < t[i].offset);
                    }
                }
            }
            return (middle_stamp.score.home - middle_stamp.score.away, offset);
        }
    }
    let left_stamp = game_stamps[left];
    proof {
        assert(floor_at(t, offset as int, left as int));
        assert forall|i: int|
            0 <= i < t.len() - 1 && floor_at(t, offset as int, i)
            implies left_stamp.score.home - left_stamp.score.away == stamp_diff(t[i]) by {
            if i < left {
                assert(t[i + 1].offset <= t[left as int].offset);
            }
            if i > left {
                assert(t[left as int + 1].offset <= t[i].offset);
            }
        }
        assert forall|i: int|
            0 <= i < t.len() && t[i].offset == offset
            implies left_stamp.score.home - left_stamp.score.away == stamp_diff(t[i]) by {
            if i <= left {
                assert(t[i].offset <= t[left as int].offset);
            }
            if i > left {
                assert(t[left as int + 1].offset <= t[i].offset);
            }
        }
    }
    (left_stamp.score.home - left_stamp.score.away, offset)
}

} // verus!
