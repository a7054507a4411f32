//! The shared cell: a lock-free atomic value plus a single-slot waker.
//!
//! [`AsyncAtomic`] is the cross-thread counterpart of the sequential
//! [`crate::cell::Atomic`]: the value slot is an atomig atomic, the wake
//! slot a futures `AtomicWaker`, and any number of threads may call the
//! mutators concurrently. Because other threads can interleave between any
//! two of its steps, a contract here states only what holds of every
//! concurrent outcome; the sequential layer is where each operation's full
//! effect, and the laws over whole histories, are pinned down.
//!
//! The calls into the outside crates stand behind trusted wrappers, one
//! per outside function, each with a doc comment naming what it relies on.

use vstd::prelude::*;

verus! {

use core::task::Waker;
use futures::task::AtomicWaker;

#[verifier::external_type_specification]
#[verifier::external_body]
pub struct ExAtomicWaker(AtomicWaker);

#[verifier::external_type_specification]
#[verifier::external_body]
pub struct ExWaker(Waker);

/// Whether the update function `f` can accept the observed value `v`,
/// that is, yield a new value for it.
pub open spec fn accepts<F: Fn(u64) -> Option<u64>>(f: F, v: u64) -> bool {
    exists|nv: u64| #[trigger] f.ensures((v,), Some(nv))
}

/// Whether the update function `f` can decline the observed value `v`.
pub open spec fn declines<F: Fn(u64) -> Option<u64>>(f: F, v: u64) -> bool {
    f.ensures((v,), None)
}

/// The lock-free value slot: an atomig atomic, held opaquely. Everything
/// known about it is stated on the trusted wrappers below.
#[verifier::external_body]
struct ValueSlot {
    inner: atomig::Atomic<u64>,
}

/// Relies on atomig::Atomic::<u64>::new: a fresh atomic holding the value.
#[verifier::external_body]
fn raw_new(v: u64) -> ValueSlot {
    ValueSlot { inner: atomig::Atomic::new(v) }
}

/// Relies on atomig::Atomic::<u64>::load: an atomic read with acquire
/// semantics. Another thread may write at any moment, so nothing can be
/// promised of the value.
#[verifier::external_body]
fn raw_load(a: &ValueSlot) -> u64 {
    a.inner.load(core::sync::atomic::Ordering::Acquire)
}

/// Relies on atomig::Atomic::<u64>::store: an atomic write with release
/// semantics.
#[verifier::external_body]
fn raw_store(a: &ValueSlot, v: u64) {
    a.inner.store(v, core::sync::atomic::Ordering::Release)
}

/// Relies on atomig::Atomic::<u64>::swap: installs the value and returns
/// the one observed before, as one indivisible operation.
#[verifier::external_body]
fn raw_swap(a: &ValueSlot, v: u64) -> u64 {
    a.inner.swap(v, core::sync::atomic::Ordering::AcqRel)
}

/// Relies on atomig::Atomic::<u64>::compare_exchange: succeeds, returning
/// the observed value (then equal to `current`), exactly when the observed
/// value equals `current`; otherwise returns the observed value in `Err`.
#[verifier::external_body]
fn raw_compare_exchange(a: &ValueSlot, current: u64, new: u64) -> (r: Result<u64, u64>)
    ensures
        r matches Ok(prev) ==> prev == current,
        r matches Err(observed) ==> observed != current,
{
    a.inner.compare_exchange(
        current,
        new,
        core::sync::atomic::Ordering::AcqRel,
        core::sync::atomic::Ordering::Acquire,
    )
}

/// Relies on atomig::Atomic::<u64>::fetch_update: retries a compare-and-
/// swap loop until either `f`'s result for some observed value is
/// installed — `Ok` then carries that observed value — or `f` declines
/// some observed value, which `Err` then carries.
#[verifier::external_body]
fn raw_fetch_update<F: Fn(u64) -> Option<u64>>(a: &ValueSlot, f: F) -> (r: Result<
    u64,
    u64,
>)
    requires
        forall|v: u64| #[trigger] f.requires((v,)),
    ensures
        r matches Ok(prev) ==> accepts(f, prev),
        r matches Err(observed) ==> declines(f, observed),
{
    a.inner.fetch_update(
        core::sync::atomic::Ordering::AcqRel,
        core::sync::atomic::Ordering::Acquire,
        |v| f(v),
    )
}

/// Relies on atomig::Atomic::<u64>::fetch_and: atomically replaces the
/// value with its bitwise and, returning the value observed before.
#[verifier::external_body]
fn raw_fetch_and(a: &ValueSlot, v: u64) -> u64 {
    a.inner.fetch_and(v, core::sync::atomic::Ordering::AcqRel)
}

/// Relies on atomig::Atomic::<u64>::fetch_or, as for the bitwise and.
#[verifier::external_body]
fn raw_fetch_or(a: &ValueSlot, v: u64) -> u64 {
    a.inner.fetch_or(v, core::sync::atomic::Ordering::AcqRel)
}

/// Relies on atomig::Atomic::<u64>::fetch_xor, as for the bitwise and.
#[verifier::external_body]
fn raw_fetch_xor(a: &ValueSlot, v: u64) -> u64 {
    a.inner.fetch_xor(v, core::sync::atomic::Ordering::AcqRel)
}

/// Relies on atomig::Atomic::<u64>::fetch_add: a wrapping atomic addition,
/// returning the value observed before.
#[verifier::external_body]
fn raw_fetch_add(a: &ValueSlot, v: u64) -> u64 {
    a.inner.fetch_add(v, core::sync::atomic::Ordering::AcqRel)
}

/// Relies on atomig::Atomic::<u64>::fetch_sub: a wrapping atomic
/// subtraction, returning the value observed before.
#[verifier::external_body]
fn raw_fetch_sub(a: &ValueSlot, v: u64) -> u64 {
    a.inner.fetch_sub(v, core::sync::atomic::Ordering::AcqRel)
}

/// Relies on atomig::Atomic::<u64>::fetch_max: atomically replaces the
/// value with the maximum, returning the value observed before.
#[verifier::external_body]
fn raw_fetch_max(a: &ValueSlot, v: u64) -> u64 {
    a.inner.fetch_max(v, core::sync::atomic::Ordering::AcqRel)
}

/// Relies on atomig::Atomic::<u64>::fetch_min, as for the maximum.
#[verifier::external_body]
fn raw_fetch_min(a: &ValueSlot, v: u64) -> u64 {
    a.inner.fetch_min(v, core::sync::atomic::Ordering::AcqRel)
}

/// Relies on futures::task::AtomicWaker::new: a fresh, empty wake slot.
#[verifier::external_body]
fn raw_waker_new() -> AtomicWaker {
    AtomicWaker::new()
}

/// Relies on futures::task::AtomicWaker::register: makes the given waker
/// the slot's sole entry, replacing whatever was registered before.
#[verifier::external_body]
fn raw_register(slot: &AtomicWaker, waker: &Waker) {
    slot.register(waker)
}

/// Relies on futures::task::AtomicWaker::wake: takes the registered waker
/// out of the slot, if any, and wakes it; with an empty slot it is a
/// no-op, so waking a dropped or absent waiter is safe.
#[verifier::external_body]
fn raw_wake(slot: &AtomicWaker) {
    slot.wake()
}

/// The shared, lock-free cell: an atomic value slot plus a single-entry
/// waker slot. Any thread may mutate it through a shared reference; every
/// mutator that can change the value wakes the registered waiter after the
/// change is visible, and the declined outcomes (a mismatched
/// compare-exchange, a fetch-update whose function returns `None`) wake
/// nobody.
pub struct AsyncAtomic {
    value: ValueSlot,
    waker: AtomicWaker,
}

impl AsyncAtomic {
    /// A fresh cell holding `value`, with an empty wake slot.
    pub fn new(value: u64) -> AsyncAtomic {
        AsyncAtomic { value: raw_new(value), waker: raw_waker_new() }
    }

    /// A fresh cell from the raw representation of its value slot; for a
    /// plain integer cell the representation is the integer itself.
    pub fn from_impl(repr: u64) -> AsyncAtomic {
        AsyncAtomic::new(repr)
    }

    /// Atomic read (acquire); no notification side effect.
    pub fn load(&self) -> u64 {
        raw_load(&self.value)
    }

    /// Atomic write (release), then wake the registered waiter, if any.
    pub fn store(&self, val: u64) {
        raw_store(&self.value, val);
        raw_wake(&self.waker);
    }

    /// Atomic swap; always changes the slot, so always wakes. Returns the
    /// value observed before.
    pub fn swap(&self, val: u64) -> u64 {
        let prev = raw_swap(&self.value, val);
        raw_wake(&self.waker);
        prev
    }

    /// Compare-exchange: `Ok(current)` and a wakeup exactly when the
    /// observed value equals `current`; on a mismatch, the observed value
    /// in `Err` and no wakeup — a routine outcome, not a failure.
    pub fn compare_exchange(&self, current: u64, new: u64) -> (r: Result<u64, u64>)
        ensures
            r matches Ok(prev) ==> prev == current,
            r matches Err(observed) ==> observed != current,
    {
        match raw_compare_exchange(&self.value, current, new) {
            Ok(prev) => {
                raw_wake(&self.waker);
                Ok(prev)
            },
            Err(observed) => Err(observed),
        }
    }

    /// Fetch-update: retries on races until either `f`'s new value for
    /// some observed value is installed — `Ok` carries that prior value,
    /// and the waiter is woken — or `f` declines an observed value, which
    /// comes back in `Err` with no wakeup. `f` may be consulted several
    /// times and must be free of side effects.
    pub fn fetch_update<F: Fn(u64) -> Option<u64>>(&self, f: F) -> (r: Result<u64, u64>)
        requires
            forall|v: u64| #[trigger] f.requires((v,)),
        ensures
            r matches Ok(prev) ==> accepts(f, prev),
            r matches Err(observed) ==> declines(f, observed),
    {
        match raw_fetch_update(&self.value, f) {
            Ok(prev) => {
                raw_wake(&self.waker);
                Ok(prev)
            },
            Err(observed) => Err(observed),
        }
    }

    /// Atomic bitwise and; always wakes; returns the value observed before.
    pub fn fetch_and(&self, val: u64) -> u64 {
        let prev = raw_fetch_and(&self.value, val);
        raw_wake(&self.waker);
        prev
    }

    /// Atomic bitwise or; always wakes; returns the value observed before.
    pub fn fetch_or(&self, val: u64) -> u64 {
        let prev = raw_fetch_or(&self.value, val);
        raw_wake(&self.waker);
        prev
    }

    /// Atomic bitwise xor; always wakes; returns the value observed before.
    pub fn fetch_xor(&self, val: u64) -> u64 {
        let prev = raw_fetch_xor(&self.value, val);
        raw_wake(&self.waker);
        prev
    }

    /// Wrapping atomic addition; always wakes; returns the value observed
    /// before.
    pub fn fetch_add(&self, val: u64) -> u64 {
        let prev = raw_fetch_add(&self.value, val);
        raw_wake(&self.waker);
        prev
    }

    /// Wrapping atomic subtraction; always wakes; returns the value
    /// observed before.
    pub fn fetch_sub(&self, val: u64) -> u64 {
        let prev = raw_fetch_sub(&self.value, val);
        raw_wake(&self.waker);
        prev
    }

    /// Atomic maximum; always wakes, even when the value was already the
    /// maximum; returns the value observed before.
    pub fn fetch_max(&self, val: u64) -> u64 {
        let prev = raw_fetch_max(&self.value, val);
        raw_wake(&self.waker);
        prev
    }

    /// Atomic minimum; always wakes; returns the value observed before.
    pub fn fetch_min(&self, val: u64) -> u64 {
        let prev = raw_fetch_min(&self.value, val);
        raw_wake(&self.waker);
        prev
    }

    /// One poll of a predicate wait: register the task's waker as the sole
    /// wakeup target, load the value, and complete with it exactly when
    /// the predicate holds of it. Whatever other threads do, a completion
    /// value always satisfies the predicate.
    pub fn poll_wait<F: Fn(u64) -> bool>(&self, waker: &Waker, pred: F) -> (r: Option<u64>)
        requires
            forall|v: u64| #[trigger] pred.requires((v,)),
        ensures
            r matches Some(v) ==> pred.ensures((v,), true),
            r is None ==> exists|v: u64| #[trigger] pred.ensures((v,), false),
    {
        raw_register(&self.waker, waker);
        let v = raw_load(&self.value);
        if pred(v) {
            Some(v)
        } else {
            None
        }
    }

    /// One poll of a conditional-update wait: register the task's waker,
    /// then attempt the fetch-update. Completion returns the value the
    /// update function accepted (the install also delivers a harmless
    /// self-wake); a declined update leaves the wait registered and
    /// pending.
    pub fn poll_wait_and_update<F: Fn(u64) -> Option<u64>>(&self, waker: &Waker, f: F) -> (r:
        Option<u64>)
        requires
            forall|v: u64| #[trigger] f.requires((v,)),
        ensures
            r matches Some(prev) ==> accepts(f, prev),
            r is None ==> exists|v: u64| #[trigger] declines(f, v),
    {
        raw_register(&self.waker, waker);
        match self.fetch_update(f) {
            Ok(prev) => Some(prev),
            Err(_) => None,
        }
    }

    /// One poll of a change stream: register the task's waker, load the
    /// value, and yield it exactly when it differs from the last yielded
    /// one, held in `prev` (`None` before the first yield).
    pub fn poll_changed(&self, waker: &Waker, prev: &mut Option<u64>) -> (r: Option<u64>)
        ensures
            r matches Some(v) ==> *old(prev) != Some(v) && *final(prev) == Some(v),
            r is None ==> *final(prev) == *old(prev),
    {
        raw_register(&self.waker, waker);
        let v = raw_load(&self.value);
        let yields = match *prev {
            None => true,
            Some(p) => p != v,
        };
        *prev = Some(v);
        if yields {
            Some(v)
        } else {
            None
        }
    }
}

} // verus!
