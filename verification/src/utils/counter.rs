//! Counting calls within a process.

use vstd::prelude::*;

verus! {

/// The number after `n`: one more, or zero after the largest.
pub open spec fn number_after(n: u64) -> u64 {
    if n == u64::MAX {
        0
    } else {
        (n + 1) as u64
    }
}

/// The number that the call after `calls` others gets, from a counter that began at zero.
pub open spec fn nth_number(calls: nat) -> u64
    decreases calls,
{
    if calls == 0 {
        0
    } else {
        number_after(nth_number((calls - 1) as nat))
    }
}

/// A number counts the calls before it, all the numbers being used again and again.
proof fn lemma_nth_number(calls: nat)
    ensures
        nth_number(calls) == calls % 0x1_0000_0000_0000_0000,
    decreases calls,
{
    if calls > 0 {
        lemma_nth_number((calls - 1) as nat);
    }
}

/// Two calls get different numbers, unless all the numbers were used between them.
pub proof fn numbers_differ(i: nat, j: nat)
    requires
        i < j,
        j - i <= u64::MAX,
    ensures
        nth_number(i) != nth_number(j),
{
    lemma_nth_number(i);
    lemma_nth_number(j);
}

/// The numbers count the calls before them, from zero up.
pub proof fn numbers_count_up(calls: nat)
    requires
        calls <= u64::MAX,
    ensures
        nth_number(calls) == calls,
{
    lemma_nth_number(calls);
}

} // verus!
