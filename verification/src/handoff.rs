//! The completion handoff: a single-producer, single-consumer, single-use
//! slot carrying exactly one result from a spawned transfer task back to
//! the adapter call that spawned it.

use vstd::prelude::*;

verus! {

/// A single-use completion slot. The sending side stores exactly one value;
/// the receiving side consumes the slot and gets exactly that value back.
/// Receiving from a slot whose sender never stored a value is a
/// programming-contract violation, not a recoverable error, so it is ruled
/// out by precondition rather than reported.
pub struct Handoff<T> {
    slot: Option<T>,
}

impl<T> Handoff<T> {
    /// The value stored so far, if any.
    pub closed spec fn contents(&self) -> Option<T> {
        self.slot
    }

    /// Creates an empty handoff, ready for its one send.
    pub fn new() -> (h: Handoff<T>)
        ensures
            h.contents() is None,
    {
        Handoff { slot: None }
    }

    /// Stores the spawned task's result. A handoff carries at most one
    /// value, so a second send is ruled out.
    pub fn send(&mut self, value: T)
        requires
            old(self).contents() is None,
        ensures
            final(self).contents() == Some(value),
    {
        self.slot = Some(value);
    }

    /// Consumes the handoff and yields exactly the value its own sender
    /// stored. A handoff whose sender was destroyed without sending has no
    /// value to yield: that case is a fatal scheduling defect and is ruled
    /// out by precondition.
    pub fn receive(self) -> (value: T)
        requires
            self.contents() is Some,
        ensures
            self.contents() == Some(value),
    {
        match self.slot {
            Some(value) => value,
            None => unreached(),
        }
    }
}

/// Completion channels of overlapping transfers never cross-talk: each
/// handoff holds exactly the value its own sender stored, so two handoffs
/// that were sent different results still hold their own, distinct results.
pub proof fn lemma_handoff_no_cross_talk<T>(a: Handoff<T>, b: Handoff<T>, x: T, y: T)
    requires
        a.contents() == Some(x),
        b.contents() == Some(y),
        x != y,
    ensures
        a.contents() != b.contents(),
        a.contents()->Some_0 == x,
        b.contents()->Some_0 == y,
{
}

} // verus!
