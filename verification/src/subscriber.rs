//! Subscriptions: the handles through which the waiting protocols are
//! obtained.
//!
//! A subscription makes explicit, at the API surface, that at most one wait
//! derived from a cell should be in flight at a time. It mints a fresh
//! waiter identity for each wait object it hands out; the cell's wake slot
//! holds only the most recently polled of them, so overlapping waits starve
//! all but the latest — a documented hazard, not a detected error.
//!
//! Two flavors exist. [`GenericSubscriber`] owns its cell, for waits whose
//! cell needs no other owner; [`RefSubscriber`] leaves the cell with the
//! caller, who passes it to each poll, for cells that writers keep mutating.

use vstd::prelude::*;

verus! {

use crate::cell::Atomic;
use crate::waiting::{Changed, Wait, WaitAndUpdate};

/// The waiter identity a subscription will mint next, after handing out
/// `minted`: identities count up from zero and saturate at the top.
pub open spec fn next_minted(minted: u64) -> u64 {
    if minted < u64::MAX {
        (minted + 1) as u64
    } else {
        minted
    }
}

/// A subscription that owns its cell. Wait objects minted here are polled
/// against [`Self::cell`], which stays publicly reachable so that writers
/// can keep mutating it between polls.
pub struct GenericSubscriber {
    /// The owned cell the minted waits are meant to be polled against.
    pub cell: Atomic,
    /// The waiter identity the next minted wait will register under.
    pub next_waiter: u64,
}

impl GenericSubscriber {
    /// Take ownership of a cell and subscribe to it. If several
    /// subscriptions exist for one cell, only the most recently polled
    /// wait among all of them is ever notified.
    pub fn new(atomic: Atomic) -> (s: GenericSubscriber)
        ensures
            s.cell@ == atomic@,
            s.next_waiter == 0,
    {
        GenericSubscriber { cell: atomic, next_waiter: 0 }
    }

    /// Mint the next waiter identity.
    fn mint(&mut self) -> (w: u64)
        ensures
            w == old(self).next_waiter,
            final(self).next_waiter == next_minted(old(self).next_waiter),
            final(self).cell@ == old(self).cell@,
    {
        let w = self.next_waiter;
        if self.next_waiter < u64::MAX {
            self.next_waiter = self.next_waiter + 1;
        }
        w
    }

    /// A wait for `pred` to hold of the cell's value; poll it against
    /// [`Self::cell`].
    pub fn wait<F: Fn(u64) -> bool>(&mut self, pred: F) -> (w: Wait<F>)
        ensures
            w.waiter == old(self).next_waiter,
            w.pred == pred,
            final(self).next_waiter == next_minted(old(self).next_waiter),
            final(self).cell@ == old(self).cell@,
    {
        let waiter = self.mint();
        Wait::new(waiter, pred)
    }

    /// A wait that installs `map`'s result once it yields one; the
    /// asynchronous counterpart of the cell's fetch-update. Poll it against
    /// [`Self::cell`].
    pub fn wait_and_update<F: Fn(u64) -> Option<u64>>(&mut self, map: F) -> (w: WaitAndUpdate<F>)
        ensures
            w.waiter == old(self).next_waiter,
            w.map == map,
            final(self).next_waiter == next_minted(old(self).next_waiter),
            final(self).cell@ == old(self).cell@,
    {
        let waiter = self.mint();
        WaitAndUpdate::new(waiter, map)
    }

    /// Consume the subscription into a change stream, handing the cell
    /// back beside it so that writers can go on mutating what the stream
    /// is polled against.
    pub fn into_stream(self) -> (r: (Changed, Atomic))
        ensures
            r.0.waiter == self.next_waiter,
            r.0.prev is None,
            r.1@ == self.cell@,
    {
        let GenericSubscriber { cell, next_waiter } = self;
        (Changed::new(next_waiter), cell)
    }
}

/// A subscription that borrows nothing: the cell stays with the caller,
/// who passes it to each poll of the waits minted here.
pub struct RefSubscriber {
    /// The waiter identity the next minted wait will register under.
    pub next_waiter: u64,
}

impl RefSubscriber {
    /// A fresh borrowing subscription.
    pub fn new() -> (s: RefSubscriber)
        ensures
            s.next_waiter == 0,
    {
        RefSubscriber { next_waiter: 0 }
    }

    /// Mint the next waiter identity.
    fn mint(&mut self) -> (w: u64)
        ensures
            w == old(self).next_waiter,
            final(self).next_waiter == next_minted(old(self).next_waiter),
    {
        let w = self.next_waiter;
        if self.next_waiter < u64::MAX {
            self.next_waiter = self.next_waiter + 1;
        }
        w
    }

    /// A wait for `pred` to hold; poll it against the caller's cell.
    pub fn wait<F: Fn(u64) -> bool>(&mut self, pred: F) -> (w: Wait<F>)
        ensures
            w.waiter == old(self).next_waiter,
            w.pred == pred,
            final(self).next_waiter == next_minted(old(self).next_waiter),
    {
        let waiter = self.mint();
        Wait::new(waiter, pred)
    }

    /// A conditional-update wait; poll it against the caller's cell.
    pub fn wait_and_update<F: Fn(u64) -> Option<u64>>(&mut self, map: F) -> (w: WaitAndUpdate<F>)
        ensures
            w.waiter == old(self).next_waiter,
            w.map == map,
            final(self).next_waiter == next_minted(old(self).next_waiter),
    {
        let waiter = self.mint();
        WaitAndUpdate::new(waiter, map)
    }

    /// Consume the subscription into a change stream, polled against the
    /// caller's cell.
    pub fn into_stream(self) -> (c: Changed)
        ensures
            c.waiter == self.next_waiter,
            c.prev is None,
    {
        Changed::new(self.next_waiter)
    }
}

impl Atomic {
    /// Consume the cell into an owning subscription.
    pub fn subscribe(self) -> (s: GenericSubscriber)
        ensures
            s.cell@ == self@,
            s.next_waiter == 0,
    {
        GenericSubscriber::new(self)
    }

    /// Consume a shared handle to the cell into an owning subscription.
    /// With single ownership the shared-handle flavor collapses into the
    /// owning one, so this is [`Self::subscribe`] under the name writers
    /// of shared cells look for.
    pub fn subscribe_arc(self) -> (s: GenericSubscriber)
        ensures
            s.cell@ == self@,
            s.next_waiter == 0,
    {
        GenericSubscriber::new(self)
    }

    /// Subscribe by reference: the cell stays where it is, and the waits
    /// minted by the returned subscription are polled against it.
    pub fn subscribe_ref(&self) -> (s: RefSubscriber)
        ensures
            s.next_waiter == 0,
    {
        RefSubscriber::new()
    }
}

} // verus!
