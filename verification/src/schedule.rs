//! The pace of the collector: after each round it sleeps until the next
//! point of its fixed grid of times, skipping the points it has missed.
use vstd::prelude::*;
use vstd::arithmetic::div_mod::lemma_mod_multiples_basic;

verus! {

/// When the collector wakes up next, and whether the round just finished
/// ran past the point at which the next one should have started.
#[derive(PartialEq, Eq, Structural, Clone, Copy, Debug)]
pub struct Wakeup {
    pub deadline: u64,
    pub late: bool,
}

/// The next wake-up after a round that was due at `goal` and ended at
/// `now` (all times on one clock, e.g. nanoseconds since start): one
/// `interval` after `goal`, or, when that point has passed, the first
/// point of the grid `goal + k * interval` that is not before `now`.
pub fn next_wakeup(goal: u64, now: u64, interval: u64) -> (w: Wakeup)
    requires
        interval > 0,
        goal + interval <= u64::MAX,
        now + interval <= u64::MAX,
    ensures
        w.late == (goal + interval < now),
        !w.late ==> w.deadline == goal + interval,
        w.deadline >= goal + interval,
        w.deadline >= now,
        (w.deadline - goal) % (interval as int) == 0,
        w.deadline > goal + interval ==> w.deadline - interval < now,
{
    let mut next = goal + interval;
    let ghost mut k: int = 1;
    let late = next < now;
    if late {
        while next < now
            invariant
                interval > 0,
                now + interval <= u64::MAX,
                goal + interval <= next,
                next < now + interval,
                next < now ==> next + interval <= u64::MAX,
                next == goal + k * interval,
                k >= 1,
                next > goal + interval ==> next - interval < now,
            decreases now + interval - next,
        {
            next = next + interval;
            proof {
                k = k + 1;
                assert(next == goal + k * interval) by (nonlinear_arith)
                    requires
                        next == goal + (k - 1) * interval + interval,
                ;
            }
        }
    }
    proof {
        lemma_mod_multiples_basic(k, interval as int);
        assert(k * interval == interval * k) by (nonlinear_arith);
    }
    Wakeup { deadline: next, late }
}

} // verus!
