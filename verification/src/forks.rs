//! The shared fork set: five exclusive-access tokens arranged in a ring.
//!
//! A fork carries no payload; its whole state is which agent, if any, holds it.
//! The table records the holder of every fork, so exclusivity is a property of
//! the data, not of a lock implementation: a fork can be acquired only while
//! free and put back only while held.

use vstd::prelude::*;
use vstd::pervasive::VecAdditionalExecFns;

verus! {

/// How many agents and forks sit in the ring.
pub const RING: usize = 5;

/// The holder of every fork: slot `f` names the agent holding fork `f`, or is
/// empty while the fork is free.
pub struct ForkTable {
    holders: Vec<Option<u8>>,
}

impl View for ForkTable {
    type V = Seq<Option<u8>>;

    closed spec fn view(&self) -> Seq<Option<u8>> {
        self.holders@
    }
}

/// A slot is in order when the holder it records, if any, is a ring position.
pub open spec fn holder_in_ring(slot: Option<u8>) -> bool {
    match slot {
        Some(a) => a < RING,
        None => true,
    }
}

impl ForkTable {
    /// One slot per ring position, and every recorded holder is a ring position.
    pub open spec fn wf(&self) -> bool {
        &&& self@.len() == RING
        &&& forall|f: int| 0 <= f < RING ==> holder_in_ring(#[trigger] self@[f])
    }

    /// A table of five free forks.
    pub fn new() -> (t: ForkTable)
        ensures
            t.wf(),
            forall|f: int| 0 <= f < RING ==> t@[f] is None,
    {
        let mut holders: Vec<Option<u8>> = Vec::new();
        holders.push(None);
        holders.push(None);
        holders.push(None);
        holders.push(None);
        holders.push(None);
        ForkTable { holders }
    }

    /// Whether fork `f` is currently held: the monitor's non-blocking probe.
    pub fn is_held(&self, f: usize) -> (r: bool)
        requires
            self.wf(),
            f < RING,
        ensures
            r == (self@[f as int] is Some),
    {
        self.holders[f].is_some()
    }

    /// Who holds fork `f`, if anyone.
    pub fn holder(&self, f: usize) -> (r: Option<u8>)
        requires
            self.wf(),
            f < RING,
        ensures
            r == self@[f as int],
    {
        self.holders[f]
    }

    /// Record that agent `a` has acquired fork `f`. Only a free fork can be
    /// taken, so a fork never has two holders.
    pub fn acquire(&mut self, f: usize, a: u8)
        requires
            old(self).wf(),
            f < RING,
            a < RING,
            old(self)@[f as int] is None,
        ensures
            final(self).wf(),
            final(self)@ == old(self)@.update(f as int, Some(a)),
    {
        self.holders.set(f, Some(a));
    }

    /// Put fork `f` back. Only a held fork can be released.
    pub fn release(&mut self, f: usize)
        requires
            old(self).wf(),
            f < RING,
            old(self)@[f as int] is Some,
        ensures
            final(self).wf(),
            final(self)@ == old(self)@.update(f as int, None),
    {
        self.holders.set(f, None);
    }
}

} // verus!
