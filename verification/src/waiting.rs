//! The three waiting protocols, as explicit poll-driven state machines.
//!
//! Each protocol is an ephemeral wait object that is polled against a cell.
//! Every poll first registers the wait as the cell's sole wakeup target —
//! replacing whatever registration was there before — and then decides,
//! from the cell's current value, whether the wait completes or stays
//! pending. A pending poll relies on a later mutation of the cell to wake
//! the registered waiter and cause a re-poll.
//!
//! The predicate is consulted only at poll time, not at each store, so a
//! value that transiently satisfied it between two polls goes unobserved.
//! That is a deliberate property of the design, kept here exactly.

use vstd::prelude::*;

verus! {

use crate::cell::{Atomic, register_spec, update_spec};

/// A wait for the cell's value to satisfy a predicate; completes with the
/// satisfying value. Each poll registers this wait as the sole wakeup
/// target, so at most one such wait should be in flight per cell.
pub struct Wait<F: Fn(u64) -> bool> {
    /// The identity under which this wait registers in the wake slot.
    pub waiter: u64,
    /// The predicate the awaited value must satisfy; must be free of side
    /// effects.
    pub pred: F,
}

impl<F: Fn(u64) -> bool> Wait<F> {
    /// A fresh predicate wait that will register under `waiter`.
    pub fn new(waiter: u64, pred: F) -> (w: Wait<F>)
        ensures
            w.waiter == waiter,
            w.pred == pred,
    {
        Wait { waiter, pred }
    }

    /// One poll: register as the wakeup target, load the value, and
    /// complete with it exactly when the predicate holds of it.
    pub fn poll(&self, cell: &mut Atomic) -> (r: Option<u64>)
        requires
            forall|v: u64| #[trigger] self.pred.requires((v,)),
        ensures
            final(cell)@ == register_spec(old(cell)@, self.waiter),
            match r {
                Some(v) => v == old(cell)@.value && self.pred.ensures((v,), true),
                None => self.pred.ensures((old(cell)@.value,), false),
            },
    {
        cell.register(self.waiter);
        let v = cell.load();
        if (self.pred)(v) {
            Some(v)
        } else {
            None
        }
    }
}

/// A wait that atomically transforms the value once the update function
/// yields a new one; completes with the value observed before the install.
/// The asynchronous counterpart of a conditional compare-and-swap loop.
pub struct WaitAndUpdate<F: Fn(u64) -> Option<u64>> {
    /// The identity under which this wait registers in the wake slot.
    pub waiter: u64,
    /// The partial update function; must be free of side effects.
    pub map: F,
}

impl<F: Fn(u64) -> Option<u64>> WaitAndUpdate<F> {
    /// A fresh conditional-update wait that will register under `waiter`.
    pub fn new(waiter: u64, map: F) -> (w: WaitAndUpdate<F>)
        ensures
            w.waiter == waiter,
            w.map == map,
    {
        WaitAndUpdate { waiter, map }
    }

    /// One poll: register as the wakeup target, then attempt the cell's
    /// fetch-update with the held function. Completion installs the new
    /// value, notifies — the slot holds this very wait, so the wakeup it
    /// delivers is a harmless self-wake — and returns the prior value; a
    /// declined update leaves the cell registered and otherwise untouched.
    pub fn poll(&self, cell: &mut Atomic) -> (r: Option<u64>)
        requires
            forall|v: u64| #[trigger] self.map.requires((v,)),
        ensures
            match r {
                Some(prev) => prev == old(cell)@.value && exists|nv: u64|
                    #[trigger] self.map.ensures((prev,), Some(nv)) && final(cell)@ == update_spec(
                        register_spec(old(cell)@, self.waiter),
                        Some(nv),
                    ),
                None => self.map.ensures((old(cell)@.value,), None) && final(cell)@
                    == register_spec(old(cell)@, self.waiter),
            },
    {
        cell.register(self.waiter);
        let consult = |v: u64| -> (d: Option<u64>)
            ensures
                self.map.ensures((v,), d),
            {
                (self.map)(v)
            };
        let r = cell.fetch_update(consult);
        match r {
            Ok(prev) => Some(prev),
            Err(_) => None,
        }
    }
}

/// A change stream: an infinite sequence of the cell's values, yielding
/// whenever the value differs from the one last yielded. It never signals
/// termination; a consumer must bound it itself.
pub struct Changed {
    /// The identity under which this stream registers in the wake slot.
    pub waiter: u64,
    /// The value last yielded; `None` until the first observation, which
    /// is always yielded.
    pub prev: Option<u64>,
}

impl Changed {
    /// A fresh change stream that will register under `waiter` and yield
    /// the first value it observes.
    pub fn new(waiter: u64) -> (c: Changed)
        ensures
            c.waiter == waiter,
            c.prev is None,
    {
        Changed { waiter, prev: None }
    }

    /// One poll: register as the wakeup target, load the value, and yield
    /// it exactly when it differs from the last yielded one (or when
    /// nothing has been yielded yet).
    pub fn poll(&mut self, cell: &mut Atomic) -> (r: Option<u64>)
        ensures
            final(cell)@ == register_spec(old(cell)@, old(self).waiter),
            final(self).waiter == old(self).waiter,
            match r {
                Some(v) => v == old(cell)@.value && old(self).prev != Some(v) && final(self).prev
                    == Some(v),
                None => old(self).prev == Some(old(cell)@.value) && final(self).prev == old(
                    self,
                ).prev,
            },
    {
        cell.register(self.waiter);
        let v = cell.load();
        let yields = match self.prev {
            None => true,
            Some(p) => p != v,
        };
        self.prev = Some(v);
        if yields {
            Some(v)
        } else {
            None
        }
    }

    /// One poll, in stream form: a yielded value arrives as `Some(Some(v))`,
    /// and the `Some(None)` that would end a stream never comes.
    pub fn poll_next(&mut self, cell: &mut Atomic) -> (r: Option<Option<u64>>)
        ensures
            final(cell)@ == register_spec(old(cell)@, old(self).waiter),
            final(self).waiter == old(self).waiter,
            r != Some(None::<u64>),
            match r {
                Some(item) => item matches Some(v) && v == old(cell)@.value && old(self).prev
                    != item && final(self).prev == item,
                None => old(self).prev == Some(old(cell)@.value) && final(self).prev == old(
                    self,
                ).prev,
            },
    {
        match self.poll(cell) {
            Some(v) => Some(Some(v)),
            None => None,
        }
    }

    /// The stream never terminates.
    pub fn is_terminated(&self) -> (r: bool)
        ensures
            r == false,
    {
        false
    }
}

} // verus!
