//! Atomics that can be subscribed to, so that a consumer can asynchronously
//! wait for changes to a shared value instead of busy-polling.
//!
//! The crate has two layers.
//!
//! The sequential layer is the verified heart: [`cell::Atomic`] models the
//! value slot together with its single-entry wake slot, and the waiting
//! protocols in [`waiting`] are explicit poll-driven state machines over it.
//! Every operation carries an exact contract, and [`laws`] proves the
//! protocol-wide guarantees (wakeup on every mutation, notification gating,
//! no lost updates, change-stream distinctness, single-waiter starvation).
//!
//! The shared layer, [`atomic::AsyncAtomic`], is the same design over a
//! lock-free atomic and a real waker slot, usable from many threads at once.
//! Its contracts state only what holds of every concurrent outcome; the
//! sequential layer is where the full protocol is pinned down.

pub mod atomic;
pub mod cell;
pub mod laws;
pub mod subscriber;
pub mod waiting;

pub use atomic::AsyncAtomic;
pub use cell::Atomic;
pub use subscriber::{GenericSubscriber, RefSubscriber};
pub use waiting::{Changed, Wait, WaitAndUpdate};
