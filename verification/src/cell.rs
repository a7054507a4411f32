//! The sequential cell: a value slot plus a single-entry wake slot.
//!
//! [`Atomic`] is the exactly-specified model of the shared cell. Its
//! operations mirror the hardware ones (load, store, swap, compare-exchange,
//! fetch-update, and the unconditional read-modify-writes), and every
//! operation that mutates the value also delivers a wakeup to the waiter
//! registered in the wake slot, if any. The abstract state is [`CellState`];
//! each operation's contract names the transition function it implements, so
//! that the laws in [`crate::laws`] can be stated purely over transitions.

use vstd::prelude::*;

verus! {

use vstd::wrapping::u64_specs;

/// The abstract state of a cell: the stored value, the identity of the
/// registered waiter (if any), and the history of wakeups delivered so far.
#[verifier::ext_equal]
pub struct CellState {
    pub value: u64,
    pub slot: Option<u64>,
    pub wakes: Seq<u64>,
}

/// Deliver a wakeup: the registered waiter, if any, is taken out of the
/// wake slot and appended to the wake history. Waking with an empty slot
/// is a no-op, as waking a dropped waiter must be.
pub open spec fn notify_spec(s: CellState) -> CellState {
    match s.slot {
        Some(w) => CellState { value: s.value, slot: None, wakes: s.wakes.push(w) },
        None => s,
    }
}

/// Register a waiter: the wake slot holds at most one entry, so whatever
/// was registered before is silently replaced.
pub open spec fn register_spec(s: CellState, waiter: u64) -> CellState {
    CellState { value: s.value, slot: Some(waiter), wakes: s.wakes }
}

/// Replace the value, keeping the wake state as it is.
pub open spec fn with_value(s: CellState, v: u64) -> CellState {
    CellState { value: v, slot: s.slot, wakes: s.wakes }
}

/// An unconditional write: install the value, then notify.
pub open spec fn store_spec(s: CellState, v: u64) -> CellState {
    notify_spec(with_value(s, v))
}

/// A swap changes the state exactly as a store does; only its result differs.
pub open spec fn swap_spec(s: CellState, v: u64) -> CellState {
    store_spec(s, v)
}

/// Compare-exchange: on a match install the new value and notify; on a
/// mismatch leave the whole state (value, slot and history) untouched.
/// The second component is the returned outcome.
pub open spec fn compare_exchange_spec(s: CellState, current: u64, new: u64) -> (
    CellState,
    Result<u64, u64>,
) {
    if s.value == current {
        (store_spec(s, new), Ok(current))
    } else {
        (s, Err(s.value))
    }
}

/// Fetch-update, given the decision the update function took for the
/// observed value: `Some(nv)` installs `nv` and notifies, `None` declines
/// and leaves the state untouched.
pub open spec fn update_spec(s: CellState, decision: Option<u64>) -> CellState {
    match decision {
        Some(nv) => store_spec(s, nv),
        None => s,
    }
}

/// Wrapping addition, then notify.
pub open spec fn fetch_add_spec(s: CellState, v: u64) -> CellState {
    store_spec(s, u64_specs::wrapping_add(s.value, v))
}

/// Wrapping subtraction, then notify.
pub open spec fn fetch_sub_spec(s: CellState, v: u64) -> CellState {
    store_spec(s, u64_specs::wrapping_sub(s.value, v))
}

/// Bitwise and, then notify.
pub open spec fn fetch_and_spec(s: CellState, v: u64) -> CellState {
    store_spec(s, s.value & v)
}

/// Bitwise or, then notify.
pub open spec fn fetch_or_spec(s: CellState, v: u64) -> CellState {
    store_spec(s, s.value | v)
}

/// Bitwise xor, then notify.
pub open spec fn fetch_xor_spec(s: CellState, v: u64) -> CellState {
    store_spec(s, s.value ^ v)
}

/// Maximum, then notify. The notification comes even when the value is
/// already the maximum: the operation is an unconditional read-modify-write.
pub open spec fn fetch_max_spec(s: CellState, v: u64) -> CellState {
    store_spec(s, if v > s.value { v } else { s.value })
}

/// Minimum, then notify, unconditionally as for the maximum.
pub open spec fn fetch_min_spec(s: CellState, v: u64) -> CellState {
    store_spec(s, if v < s.value { v } else { s.value })
}

/// The sequential cell: the value, the wake slot, and (as ghost state)
/// the history of wakeups it has delivered.
///
/// Exactly one waiter can be registered at a time; registering another
/// replaces it. Every operation that can change the value notifies the
/// registered waiter; an operation that declines to change it (a failed
/// compare-exchange, a fetch-update whose function returns `None`) does not.
pub struct Atomic {
    value: u64,
    slot: Option<u64>,
    wakes: Ghost<Seq<u64>>,
}

impl View for Atomic {
    type V = CellState;

    closed spec fn view(&self) -> CellState {
        CellState { value: self.value, slot: self.slot, wakes: self.wakes@ }
    }
}

impl Atomic {
    /// A fresh cell holding `value`, with an empty wake slot and history.
    pub fn new(value: u64) -> (r: Atomic)
        ensures
            r@ == (CellState { value, slot: None::<u64>, wakes: Seq::<u64>::empty() }),
    {
        Atomic { value, slot: None, wakes: Ghost(Seq::empty()) }
    }

    /// A fresh cell from the raw representation of its value slot; the
    /// representation of a plain integer cell is the integer itself.
    pub fn from_impl(repr: u64) -> (r: Atomic)
        ensures
            r@ == (CellState { value: repr, slot: None::<u64>, wakes: Seq::<u64>::empty() }),
    {
        Atomic::new(repr)
    }

    /// Atomic read: returns the current value, with no side effect on the
    /// wake slot.
    pub fn load(&self) -> (r: u64)
        ensures
            r == self@.value,
    {
        self.value
    }

    /// Deliver the pending wakeup, if a waiter is registered.
    fn wake(&mut self)
        ensures
            final(self)@ == notify_spec(old(self)@),
    {
        match self.slot {
            Some(w) => {
                self.wakes = Ghost(self.wakes@.push(w));
                self.slot = None;
            },
            None => {},
        }
    }

    /// Register `waiter` as the sole wakeup target, replacing any earlier
    /// registration.
    pub(crate) fn register(&mut self, waiter: u64)
        ensures
            final(self)@ == register_spec(old(self)@, waiter),
    {
        self.slot = Some(waiter);
    }

    /// Atomic write: installs the value, then unconditionally notifies the
    /// registered waiter, if any.
    pub fn store(&mut self, val: u64)
        ensures
            final(self)@ == store_spec(old(self)@, val),
    {
        self.value = val;
        self.wake();
    }

    /// Atomic read-modify-write: installs the value, notifies, and returns
    /// the value observed before.
    pub fn swap(&mut self, val: u64) -> (r: u64)
        ensures
            r == old(self)@.value,
            final(self)@ == swap_spec(old(self)@, val),
    {
        let prev = self.value;
        self.value = val;
        self.wake();
        prev
    }

    /// Compare-exchange: succeeds, notifies and returns `Ok(current)` when
    /// the observed value equals `current`; otherwise returns the observed
    /// value in `Err` and has no effect at all — a mismatch is a routine
    /// outcome, not a failure, and in particular wakes nobody.
    pub fn compare_exchange(&mut self, current: u64, new: u64) -> (r: Result<u64, u64>)
        ensures
            final(self)@ == compare_exchange_spec(old(self)@, current, new).0,
            r == compare_exchange_spec(old(self)@, current, new).1,
    {
        if self.value == current {
            self.value = new;
            self.wake();
            Ok(current)
        } else {
            Err(self.value)
        }
    }

    /// Fetch-update: applies `f` to the current value; if `f` yields a new
    /// value it is installed, the waiter is notified and the prior value
    /// comes back in `Ok`; if `f` declines, the observed value comes back in
    /// `Err` and nothing changes — and nobody is woken. `f` must be
    /// side-effect-free; here, where nothing races, it is consulted once.
    pub fn fetch_update<F: Fn(u64) -> Option<u64>>(&mut self, f: F) -> (r: Result<u64, u64>)
        requires
            forall|v: u64| #[trigger] f.requires((v,)),
        ensures
            match r {
                Ok(prev) => prev == old(self)@.value && exists|nv: u64|
                    #[trigger] f.ensures((prev,), Some(nv)) && final(self)@ == update_spec(
                        old(self)@,
                        Some(nv),
                    ),
                Err(observed) => observed == old(self)@.value && f.ensures((observed,), None)
                    && final(self)@ == old(self)@,
            },
    {
        let prev = self.value;
        match f(prev) {
            Some(nv) => {
                self.value = nv;
                self.wake();
                Ok(prev)
            },
            None => Err(prev),
        }
    }

    /// Wrapping addition: always succeeds, always notifies, returns the
    /// value observed before the operation.
    pub fn fetch_add(&mut self, val: u64) -> (r: u64)
        ensures
            r == old(self)@.value,
            final(self)@ == fetch_add_spec(old(self)@, val),
    {
        let prev = self.value;
        self.value = prev.wrapping_add(val);
        self.wake();
        prev
    }

    /// Wrapping subtraction: always succeeds, always notifies, returns the
    /// value observed before.
    pub fn fetch_sub(&mut self, val: u64) -> (r: u64)
        ensures
            r == old(self)@.value,
            final(self)@ == fetch_sub_spec(old(self)@, val),
    {
        let prev = self.value;
        self.value = prev.wrapping_sub(val);
        self.wake();
        prev
    }

    /// Bitwise and: always succeeds, always notifies, returns the value
    /// observed before.
    pub fn fetch_and(&mut self, val: u64) -> (r: u64)
        ensures
            r == old(self)@.value,
            final(self)@ == fetch_and_spec(old(self)@, val),
    {
        let prev = self.value;
        self.value = prev & val;
        self.wake();
        prev
    }

    /// Bitwise or: always succeeds, always notifies, returns the value
    /// observed before.
    pub fn fetch_or(&mut self, val: u64) -> (r: u64)
        ensures
            r == old(self)@.value,
            final(self)@ == fetch_or_spec(old(self)@, val),
    {
        let prev = self.value;
        self.value = prev | val;
        self.wake();
        prev
    }

    /// Bitwise xor: always succeeds, always notifies, returns the value
    /// observed before.
    pub fn fetch_xor(&mut self, val: u64) -> (r: u64)
        ensures
            r == old(self)@.value,
            final(self)@ == fetch_xor_spec(old(self)@, val),
    {
        let prev = self.value;
        self.value = prev ^ val;
        self.wake();
        prev
    }

    /// Maximum: always succeeds, always notifies (even when the value was
    /// already the maximum), returns the value observed before.
    pub fn fetch_max(&mut self, val: u64) -> (r: u64)
        ensures
            r == old(self)@.value,
            final(self)@ == fetch_max_spec(old(self)@, val),
    {
        let prev = self.value;
        if val > prev {
            self.value = val;
        }
        self.wake();
        prev
    }

    /// Minimum: always succeeds, always notifies, returns the value
    /// observed before.
    pub fn fetch_min(&mut self, val: u64) -> (r: u64)
        ensures
            r == old(self)@.value,
            final(self)@ == fetch_min_spec(old(self)@, val),
    {
        let prev = self.value;
        if val < prev {
            self.value = val;
        }
        self.wake();
        prev
    }
}

} // verus!
