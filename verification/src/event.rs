//! The network-change notification signal.
//!
//! The real notification primitive delivers a broadcast to every current
//! subscriber before `fire` returns. This layer only decides *when* the signal
//! fires, so the model records the one observable this layer is responsible
//! for: how many times the signal has fired. Delivery to subscribers is the
//! host application's concern.

use vstd::prelude::*;

verus! {

/// A broadcast signal, modeled by the number of times it has fired.
pub struct ObservableEvent {
    pub fire_count: u64,
}

impl ObservableEvent {
    /// A fresh signal that has never fired.
    pub fn new() -> (r: ObservableEvent)
        ensures
            r.fire_count == 0,
    {
        ObservableEvent { fire_count: 0 }
    }

    /// Fires the signal once: every current subscriber is notified before
    /// this returns.
    pub fn fire(&mut self)
        requires
            old(self).fire_count < u64::MAX,
        ensures
            final(self).fire_count == old(self).fire_count + 1,
    {
        self.fire_count = self.fire_count + 1;
    }

    /// How many times the signal has fired.
    pub fn count(&self) -> (r: u64)
        ensures
            r == self.fire_count,
    {
        self.fire_count
    }
}

} // verus!
