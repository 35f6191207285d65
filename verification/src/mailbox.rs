//! Single-slot, latest-value-wins signaling between tasks.
//!
//! `publish` overwrites the slot and `try_take` consumes it. Multiple
//! publishes between two takes are lossy on purpose: only the last value
//! survives. There is no queueing and no backpressure — the design
//! favors freshness of risk and sample data over completeness. A task
//! that must block until a value arrives loops around `try_take` at its
//! suspension point, outside this crate.

use vstd::prelude::*;

verus! {

/// Latest-value-wins handoff cell between two tasks.
pub struct Mailbox<T> {
    slot: Option<T>,
}

impl<T> Mailbox<T> {
    /// The unconsumed value currently held, if any.
    pub closed spec fn value(&self) -> Option<T> {
        self.slot
    }

    /// An empty mailbox: a consumer finds nothing until the first
    /// publish.
    pub fn new() -> (r: Self)
        ensures
            r.value() == None::<T>,
    {
        Mailbox { slot: None }
    }

    /// Overwrites the slot, read or not: of two publishes before one
    /// take, only the second survives.
    pub fn publish(&mut self, value: T)
        ensures
            final(self).value() == Some(value),
    {
        self.slot = Some(value);
    }

    /// Consumes the slot: returns the most recent unread publish, or
    /// `None` if nothing was published since the last take.
    pub fn try_take(&mut self) -> (r: Option<T>)
        ensures
            r == old(self).value(),
            final(self).value() == None::<T>,
    {
        self.slot.take()
    }
}

} // verus!
