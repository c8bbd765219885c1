//! Bounded queues that forget their oldest entries.
use vstd::prelude::*;
use std::collections::VecDeque;

verus! {

broadcast use vstd::std_specs::vecdeque::group_vec_dequeue_axioms;

/// The last `max` elements of a sequence (all of it when it is no longer than `max`).
pub open spec fn keep_last<T>(s: Seq<T>, max: nat) -> Seq<T> {
    if s.len() > max {
        s.subrange(s.len() - max, s.len() as int)
    } else {
        s
    }
}

/// Appends `x` at the back, then drops entries from the front until at most `max` remain.
pub fn push_bounded<T>(q: &mut VecDeque<T>, x: T, max: usize)
    ensures
        final(q)@ == keep_last(old(q)@.push(x), max as nat),
{
    q.push_back(x);
    let ghost full = old(q)@.push(x);
    let ghost mut dropped: int = 0;
    while q.len() > max
        invariant
            0 <= dropped <= full.len(),
            q@ == full.subrange(dropped, full.len() as int),
            dropped > 0 ==> full.len() - dropped >= max,
        decreases q@.len(),
    {
        q.pop_front();
        proof {
            dropped = dropped + 1;
        }
    }
    proof {
        if full.len() > max {
            assert(dropped == full.len() - max);
        } else {
            assert(dropped == 0);
            assert(q@ =~= full);
        }
    }
}

} // verus!
