//! Choices the collector makes among the values it reads from the system.
use vstd::prelude::*;

verus! {

/// Which disk's usage the collector records, given the total size of each
/// disk in listing order: the first of the largest disks, or none when no
/// disk has any space.
pub fn largest_disk_index(totals: &Vec<u64>) -> (pick: Option<usize>)
    ensures
        pick is None <==> forall|i: int| 0 <= i < totals.len() ==> totals[i] == 0,
        pick matches Some(k) ==> {
            &&& k < totals.len()
            &&& totals[k as int] > 0
            &&& forall|i: int| 0 <= i < totals.len() ==> totals[i] <= totals[k as int]
            &&& forall|i: int| 0 <= i < k ==> totals[i] < totals[k as int]
        },
{
    let mut largest: u64 = 0;
    let mut pick: Option<usize> = None;
    let mut i: usize = 0;
    while i < totals.len()
        invariant
            i <= totals.len(),
            forall|j: int| 0 <= j < i ==> totals[j] <= largest,
            pick is None ==> largest == 0,
            pick matches Some(k) ==> k < i && totals[k as int] == largest && largest > 0
                && forall|j: int| 0 <= j < k ==> totals[j] < largest,
        decreases totals.len() - i,
    {
        if totals[i] > largest {
            largest = totals[i];
            pick = Some(i);
        }
        i = i + 1;
    }
    pick
}

} // verus!
