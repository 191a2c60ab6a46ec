//! The display-number allocator.

use vstd::prelude::*;

verus! {

/// The display number that follows once `issued` numbers have been issued.
pub open spec fn number_after(issued: nat) -> nat {
    issued + 1
}

/// Issues the display numbers shown on published confessions: 1, 2, 3, ...
/// in the order of the calls, never twice the same.
pub struct ConfessionCount {
    issued: u64,
}

impl ConfessionCount {
    /// How many numbers have been issued so far.
    pub closed spec fn issued(&self) -> nat {
        self.issued as nat
    }

    /// Whether every number that fits has been issued.
    pub open spec fn spent(&self) -> bool {
        self.issued() >= u64::MAX
    }

    /// A fresh allocator, which has issued nothing.
    pub fn new() -> (count: Self)
        ensures
            count.issued() == 0,
    {
        ConfessionCount { issued: 0 }
    }

    /// Whether `next` can no longer be called.
    pub fn is_spent(&self) -> (spent: bool)
        ensures
            spent == self.spent(),
    {
        self.issued == u64::MAX
    }

    /// Issues the next display number: one more than the count of numbers
    /// issued before.
    pub fn next(&mut self) -> (number: u64)
        requires
            !old(self).spent(),
        ensures
            number == number_after(old(self).issued()),
            final(self).issued() == old(self).issued() + 1,
    {
        self.issued = self.issued + 1;
        self.issued
    }
}

/// The numbers that `calls` successive calls of `next` return, in the order
/// of the calls, on an allocator that has issued `issued` numbers before.
pub open spec fn numbers(issued: nat, calls: nat) -> Seq<nat>
    decreases calls,
{
    if calls == 0 {
        Seq::empty()
    } else {
        let earlier = (calls - 1) as nat;
        numbers(issued, earlier).push(number_after(issued + earlier))
    }
}

/// Successive calls return consecutive numbers: call `i`, counted from 0,
/// returns one more than the count of numbers issued before it. So no two
/// calls return the same number, none is left out, and a fresh allocator
/// returns 1, 2, 3, ...
pub proof fn numbers_are_consecutive(issued: nat, calls: nat)
    ensures
        numbers(issued, calls).len() == calls,
        forall|i: int| 0 <= i < calls ==> #[trigger] numbers(issued, calls)[i] == issued + i + 1,
        forall|i: int, j: int|
            0 <= i < calls && 0 <= j < calls && i != j ==> #[trigger] numbers(issued, calls)[i]
                != #[trigger] numbers(issued, calls)[j],
    decreases calls,
{
    if calls > 0 {
        numbers_are_consecutive(issued, (calls - 1) as nat);
    }
}

} // verus!
