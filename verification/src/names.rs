//! The supply of intermediate variables.

use vstd::prelude::*;

verus! {

/// Hands out the numbers of intermediate variables, each one once, in
/// rising order. Two variables that came out of one supply never collide,
/// and none collides with a name of the user: an intermediate variable is a
/// number, a user's name is text.
#[derive(Debug)]
pub struct NameSupply {
    next: u64,
}

impl NameSupply {
    /// The number that the next intermediate variable gets.
    pub closed spec fn next(&self) -> nat {
        self.next as nat
    }

    /// A supply that has handed out nothing yet.
    pub fn new() -> (r: NameSupply)
        ensures
            r.next() == 0,
    {
        NameSupply { next: 0 }
    }

    /// A supply whose first variable has the given number.
    pub fn starting_at(first: u64) -> (r: NameSupply)
        ensures
            r.next() == first,
    {
        NameSupply { next: first }
    }

    /// The number that the next intermediate variable gets.
    pub fn peek(&self) -> (r: u64)
        ensures
            r == self.next(),
    {
        self.next
    }

    /// Whether the supply can still hand out `count` variables.
    pub fn can_supply(&self, count: u64) -> (r: bool)
        ensures
            r == (self.next() + count <= u64::MAX),
    {
        count <= u64::MAX - self.next
    }

    /// Hands out one intermediate variable.
    pub fn fresh(&mut self) -> (r: u64)
        requires
            old(self).next() < u64::MAX,
        ensures
            r == old(self).next(),
            final(self).next() == old(self).next() + 1,
    {
        let r: u64 = self.next;
        self.next = r + 1;
        r
    }
}

} // verus!
