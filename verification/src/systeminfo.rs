//! Decisions behind the system information page: in which unit a byte
//! count is shown, and which processes are listed in what order.
use vstd::prelude::*;

use crate::text::starts_with;

verus! {

broadcast use vstd::string::group_string_axioms;

/// The unit in which the system page shows a byte count.
#[derive(PartialEq, Eq, Structural, Clone, Copy, Debug)]
pub enum ByteUnit {
    Bytes,
    Kilo,
    Mega,
    Giga,
}

/// Counts up to 999 are shown in bytes, below a million in kB, below a
/// billion in MB and from there on in GB.
pub open spec fn unit_for(bytes: nat) -> ByteUnit {
    if bytes <= 999 {
        ByteUnit::Bytes
    } else if bytes <= 999_999 {
        ByteUnit::Kilo
    } else if bytes <= 999_999_999 {
        ByteUnit::Mega
    } else {
        ByteUnit::Giga
    }
}

impl ByteUnit {
    /// How many bytes one of this unit stands for.
    pub open spec fn spec_divisor(self) -> nat {
        match self {
            ByteUnit::Bytes => 1,
            ByteUnit::Kilo => 1_000,
            ByteUnit::Mega => 1_000_000,
            ByteUnit::Giga => 1_000_000_000,
        }
    }

    /// How many bytes one of this unit stands for.
    pub fn divisor(&self) -> (d: u64)
        ensures
            d == self.spec_divisor(),
            *self == ByteUnit::Bytes ==> d == 1,
            *self == ByteUnit::Kilo ==> d == 1000,
            *self == ByteUnit::Mega ==> d == 1000 * 1000,
            *self == ByteUnit::Giga ==> d == 1000 * 1000 * 1000,
    {
        match self {
            ByteUnit::Bytes => 1,
            ByteUnit::Kilo => 1_000,
            ByteUnit::Mega => 1_000_000,
            ByteUnit::Giga => 1_000_000_000,
        }
    }

    /// The symbol written after the number.
    pub fn symbol(&self) -> (s: &'static str)
        ensures
            *self == ByteUnit::Bytes ==> s@ == seq!['B'],
            *self == ByteUnit::Kilo ==> s@ == seq!['k', 'B'],
            *self == ByteUnit::Mega ==> s@ == seq!['M', 'B'],
            *self == ByteUnit::Giga ==> s@ == seq!['G', 'B'],
    {
        proof {
            reveal_strlit("B");
            reveal_strlit("kB");
            reveal_strlit("MB");
            reveal_strlit("GB");
        }
        match self {
            ByteUnit::Bytes => "B",
            ByteUnit::Kilo => "kB",
            ByteUnit::Mega => "MB",
            ByteUnit::Giga => "GB",
        }
    }
}

/// The chosen unit never makes the whole part zero, and below gigabytes
/// it keeps the whole part under a thousand.
pub proof fn lemma_unit_range(bytes: nat)
    ensures
        bytes == 0 || unit_for(bytes).spec_divisor() <= bytes,
        unit_for(bytes) != ByteUnit::Giga ==> bytes < 1000 * unit_for(bytes).spec_divisor(),
{
}

/// Each unit is a thousand of the one before it, starting from the byte:
/// a kilobyte is 10^3 bytes, a megabyte 10^6 and a gigabyte 10^9.
pub proof fn lemma_unit_scale()
    ensures
        ByteUnit::Bytes.spec_divisor() == 1,
        ByteUnit::Kilo.spec_divisor() == 1000 * ByteUnit::Bytes.spec_divisor(),
        ByteUnit::Mega.spec_divisor() == 1000 * ByteUnit::Kilo.spec_divisor(),
        ByteUnit::Giga.spec_divisor() == 1000 * ByteUnit::Mega.spec_divisor(),
{
}

/// A count is shown in the largest unit that fits into it: the quotient by
/// the chosen unit's size is at least one (for a non-zero count), and
/// below a thousand unless the unit is already the gigabyte; a count is
/// shown in gigabytes exactly when it is at least a thousand megabytes.
pub proof fn lemma_unit_is_largest_fitting(bytes: nat)
    ensures
        bytes > 0 ==> bytes / unit_for(bytes).spec_divisor() >= 1,
        unit_for(bytes) != ByteUnit::Giga ==> bytes / unit_for(bytes).spec_divisor() < 1000,
        unit_for(bytes) == ByteUnit::Giga <==> bytes >= 1000 * ByteUnit::Mega.spec_divisor(),
        unit_for(bytes) == ByteUnit::Bytes <==> bytes < 1000 * ByteUnit::Bytes.spec_divisor(),
{
}

/// Picks the unit in which the system page shows `bytes`.
pub fn byte_unit(bytes: u64) -> (u: ByteUnit)
    ensures
        u == unit_for(bytes as nat),
{
    if bytes <= 999 {
        ByteUnit::Bytes
    } else if bytes <= 999_999 {
        ByteUnit::Kilo
    } else if bytes <= 999_999_999 {
        ByteUnit::Mega
    } else {
        ByteUnit::Giga
    }
}

/// The name prefix of kernel worker threads, which the page leaves out.
pub open spec fn kworker() -> Seq<char> {
    seq!['k', 'w', 'o', 'r', 'k', 'e', 'r']
}

/// A process is listed unless it is a kernel worker or uses no memory.
pub open spec fn is_listed(name: Seq<char>, memory: u64) -> bool {
    !kworker().is_prefix_of(name) && memory != 0
}

/// Process `a` comes before process `b`: it uses more memory, or as much
/// and came first in the input (the sort is stable).
pub open spec fn shown_before(memory: Seq<u64>, a: int, b: int) -> bool {
    memory[a] > memory[b] || (memory[a] == memory[b] && a < b)
}

/// The order in which the system page lists processes, as indices into
/// `names` and `memory` (which describe the same processes): kernel
/// workers and processes without memory are left out, the rest are sorted
/// by memory, largest first, keeping the input order among equals.
pub fn process_display_order(names: &Vec<String>, memory: &Vec<u64>) -> (order: Vec<usize>)
    requires
        names.len() == memory.len(),
    ensures
        forall|k: int|
            0 <= k < order.len() ==> order[k] < names.len() && is_listed(
                names[order[k] as int]@,
                memory[order[k] as int],
            ),
        forall|i: int|
            0 <= i < names.len() && is_listed(names[i]@, memory[i]) ==> order@.contains(
                i as usize,
            ),
        forall|a: int, b: int|
            0 <= a < b < order.len() ==> shown_before(memory@, order[a] as int, order[b] as int),
{
    let mut order: Vec<usize> = Vec::new();
    let n = names.len();
    proof {
        reveal_strlit("kworker");
        assert("kworker"@ =~= kworker());
    }
    for i in 0..n
        invariant
            n == names.len(),
            n == memory.len(),
            "kworker"@ == kworker(),
            forall|k: int| 0 <= k < order.len() ==> order[k] < i,
            forall|k: int|
                0 <= k < order.len() ==> is_listed(
                    names[order[k] as int]@,
                    memory[order[k] as int],
                ),
            forall|j: int|
                0 <= j < i && is_listed(names[j]@, memory[j]) ==> order@.contains(j as usize),
            forall|a: int, b: int|
                0 <= a < b < order.len() ==> shown_before(
                    memory@,
                    order[a] as int,
                    order[b] as int,
                ),
    {
        let is_worker = starts_with(names[i].as_str(), "kworker");
        if !is_worker && memory[i] != 0 {
            let mem = memory[i];
            let mut p: usize = 0;
            while p < order.len() && memory[order[p]] >= mem
                invariant
                    n == memory.len(),
                    p <= order.len(),
                    forall|k: int| 0 <= k < order.len() ==> order[k] < n,
                    mem == memory[i as int],
                    forall|q: int| 0 <= q < p ==> memory[order[q] as int] >= mem,
                decreases order.len() - p,
            {
                p = p + 1;
            }
            let ghost old_order = order@;
            order.insert(p, i);
            proof {
                assert(is_listed(names[i as int]@, memory[i as int]));
                assert forall|k: int| 0 <= k < order.len() implies is_listed(
                    names[order[k] as int]@,
                    memory[order[k] as int],
                ) by {
                    if k < p {
                        assert(order[k] == old_order[k]);
                    } else if k > p {
                        assert(order[k] == old_order[k - 1]);
                    }
                }
                assert forall|a: int, b: int| 0 <= a < b < order.len() implies shown_before(
                    memory@,
                    order[a] as int,
                    order[b] as int,
                ) by {
                    if b < p {
                        assert(order[a] == old_order[a] && order[b] == old_order[b]);
                    } else if b == p {
                        assert(order[a] == old_order[a]);
                        assert(memory[old_order[a] as int] >= mem);
                    } else if a == p {
                        assert(order[b] == old_order[b - 1]);
                        assert(memory[old_order[p as int] as int] < mem);
                        if b - 1 > p {
                            assert(shown_before(memory@, old_order[p as int] as int, old_order[b - 1] as int));
                        }
                    } else if a < p {
                        assert(order[a] == old_order[a] && order[b] == old_order[b - 1]);
                    } else {
                        assert(order[a] == old_order[a - 1] && order[b] == old_order[b - 1]);
                    }
                }
                assert forall|j: int|
                    0 <= j < i + 1 && is_listed(names[j]@, memory[j]) implies order@.contains(
                    j as usize,
                ) by {
                    if j == i {
                        assert(order[p as int] == i);
                    } else {
                        let k = choose|k: int| 0 <= k < old_order.len() && old_order[k] == j as usize;
                        if k < p {
                            assert(order[k] == j as usize);
                        } else {
                            assert(order[k + 1] == j as usize);
                        }
                    }
                }
            }
        }
    }
    order
}

} // verus!
