//! The protocol-wide guarantees, proved over the cell's transitions.
//!
//! The cell's operations are specified one at a time in [`crate::cell`];
//! here whole histories are considered. An operation trace is a sequence of
//! [`Op`] values run through [`apply_op`], and the laws say what every such
//! history observes: a read after a write sees the write, a registered
//! waiter is woken by exactly the mutations that change (or uncondition-
//! ally rewrite) the value, racing conditional updates never lose a step,
//! a change stream never repeats a value back to back, and a waiter whose
//! registration was overwritten is never woken again.

use vstd::prelude::*;

verus! {

use crate::cell::{
    CellState,
    compare_exchange_spec,
    fetch_add_spec,
    fetch_and_spec,
    fetch_max_spec,
    fetch_min_spec,
    fetch_or_spec,
    fetch_sub_spec,
    fetch_xor_spec,
    register_spec,
    store_spec,
    swap_spec,
    update_spec,
};

/// One step of a cell's history: a registration or one of the mutators.
/// A fetch-update step carries the decision its function took for the
/// value it observed, which is all of the function the cell ever sees.
pub enum Op {
    Register(u64),
    Store(u64),
    Swap(u64),
    CompareExchange(u64, u64),
    Update(Option<u64>),
    Add(u64),
    Sub(u64),
    And(u64),
    Or(u64),
    Xor(u64),
    Max(u64),
    Min(u64),
}

/// The state transition each step performs.
pub open spec fn apply_op(s: CellState, op: Op) -> CellState {
    match op {
        Op::Register(w) => register_spec(s, w),
        Op::Store(v) => store_spec(s, v),
        Op::Swap(v) => swap_spec(s, v),
        Op::CompareExchange(current, new) => compare_exchange_spec(s, current, new).0,
        Op::Update(d) => update_spec(s, d),
        Op::Add(v) => fetch_add_spec(s, v),
        Op::Sub(v) => fetch_sub_spec(s, v),
        Op::And(v) => fetch_and_spec(s, v),
        Op::Or(v) => fetch_or_spec(s, v),
        Op::Xor(v) => fetch_xor_spec(s, v),
        Op::Max(v) => fetch_max_spec(s, v),
        Op::Min(v) => fetch_min_spec(s, v),
    }
}

/// A whole history, run from `s`.
pub open spec fn run_ops(s: CellState, ops: Seq<Op>) -> CellState
    decreases ops.len(),
{
    if ops.len() == 0 {
        s
    } else {
        run_ops(apply_op(s, ops[0]), ops.subrange(1, ops.len() as int))
    }
}

/// Whether `op`, taken in state `s`, delivers a notification: every
/// unconditional mutator does; a compare-exchange does exactly when it
/// matches; a fetch-update does exactly when its function yielded a new
/// value; a registration never does.
pub open spec fn notifies(s: CellState, op: Op) -> bool {
    match op {
        Op::Register(_) => false,
        Op::Store(_) => true,
        Op::Swap(_) => true,
        Op::CompareExchange(current, _) => s.value == current,
        Op::Update(d) => d is Some,
        Op::Add(_) => true,
        Op::Sub(_) => true,
        Op::And(_) => true,
        Op::Or(_) => true,
        Op::Xor(_) => true,
        Op::Max(_) => true,
        Op::Min(_) => true,
    }
}

/// Read-after-write: a store installs exactly the stored value, so the
/// next load returns it.
pub proof fn lemma_read_after_write(s: CellState, v: u64)
    ensures
        store_spec(s, v).value == v,
{
}

/// The registration a poll of a predicate wait performs.
pub open spec fn wait_poll_state(s: CellState, w: u64) -> CellState {
    register_spec(s, w)
}

/// The decision a poll of a predicate wait takes: it completes with the
/// current value exactly when the predicate holds of it.
pub open spec fn wait_poll_result(s: CellState, pred: spec_fn(u64) -> bool) -> Option<u64> {
    if pred(s.value) {
        Some(s.value)
    } else {
        None
    }
}

/// Wait correctness: a poll of `wait(pred)` completes exactly when the
/// cell's value satisfies `pred`, and the completion value satisfies
/// `pred`; and when a poll stays pending, the waiter it left registered is
/// woken by the store of `v`, whose re-poll then completes exactly when
/// `v` satisfies `pred`.
pub proof fn lemma_wait_correctness(s: CellState, w: u64, pred: spec_fn(u64) -> bool, v: u64)
    ensures
        wait_poll_result(s, pred) is Some <==> pred(s.value),
        wait_poll_result(s, pred) matches Some(u) ==> u == s.value && pred(u),
        ({
            let registered = wait_poll_state(s, w);
            let stored = apply_op(registered, Op::Store(v));
            stored.wakes == registered.wakes.push(w) && (wait_poll_result(stored, pred) is Some
                <==> pred(v))
        }),
{
}

/// Notification gating: with a waiter registered, a notifying step always
/// wakes it (and empties the slot), while a non-notifying mutator — a
/// mismatched compare-exchange or a declined fetch-update — leaves the
/// whole state, registration included, untouched.
pub proof fn lemma_notification_gating(s: CellState, w: u64, op: Op)
    requires
        s.slot == Some(w),
    ensures
        notifies(s, op) ==> apply_op(s, op).slot is None && apply_op(s, op).wakes == s.wakes.push(
            w,
        ),
        !notifies(s, op) && !(op matches Op::Register(_)) ==> apply_op(s, op) == s,
{
}

/// A history made only of fetch-update steps: each step's function is
/// consulted on the value the previous step left — the retry discipline —
/// and its decision applied.
pub open spec fn run_updates(s: CellState, fs: Seq<spec_fn(u64) -> Option<u64>>) -> CellState
    decreases fs.len(),
{
    if fs.len() == 0 {
        s
    } else {
        run_updates(update_spec(s, fs[0](s.value)), fs.subrange(1, fs.len() as int))
    }
}

/// The sum of the deltas of the successful steps of such a history; a
/// declined step contributes nothing.
pub open spec fn update_net(s: CellState, fs: Seq<spec_fn(u64) -> Option<u64>>) -> int
    decreases fs.len(),
{
    if fs.len() == 0 {
        0
    } else {
        let step: int = match fs[0](s.value) {
            Some(nv) => nv - s.value,
            None => 0,
        };
        step + update_net(update_spec(s, fs[0](s.value)), fs.subrange(1, fs.len() as int))
    }
}

/// Conditional-update atomicity: over any sequence of fetch-update steps,
/// no update is lost — the net change of the value is exactly the sum of
/// the successful steps' deltas.
pub proof fn lemma_update_atomicity(s: CellState, fs: Seq<spec_fn(u64) -> Option<u64>>)
    ensures
        run_updates(s, fs).value == s.value + update_net(s, fs),
    decreases fs.len(),
{
    if fs.len() == 0 {
    } else {
        lemma_update_atomicity(update_spec(s, fs[0](s.value)), fs.subrange(1, fs.len() as int));
    }
}

/// The values a change stream yields when it observes `vals` one after
/// another, having last yielded `prev`: each observation is yielded
/// exactly when it differs from the last yielded value.
pub open spec fn changed_yields(prev: Option<u64>, vals: Seq<u64>) -> Seq<u64>
    decreases vals.len(),
{
    if vals.len() == 0 {
        Seq::<u64>::empty()
    } else {
        let rest = changed_yields(Some(vals[0]), vals.subrange(1, vals.len() as int));
        if prev != Some(vals[0]) {
            seq![vals[0]] + rest
        } else {
            rest
        }
    }
}

/// Change-stream distinctness: whatever values the stream observes, two
/// consecutively yielded values always differ, and the first yield differs
/// from whatever was yielded before the observations began. (That the
/// stream never signals termination is part of the contract of
/// [`crate::waiting::Changed::poll_next`].)
pub proof fn lemma_changed_distinct(prev: Option<u64>, vals: Seq<u64>)
    ensures
        forall|i: int|
            0 <= i < changed_yields(prev, vals).len() - 1 ==> #[trigger] changed_yields(
                prev,
                vals,
            )[i] != changed_yields(prev, vals)[i + 1],
        prev is Some && changed_yields(prev, vals).len() > 0 ==> changed_yields(prev, vals)[0]
            != prev->0,
    decreases vals.len(),
{
    if vals.len() == 0 {
    } else {
        let v = vals[0];
        let rest = changed_yields(Some(v), vals.subrange(1, vals.len() as int));
        lemma_changed_distinct(Some(v), vals.subrange(1, vals.len() as int));
        if prev != Some(v) {
            assert(changed_yields(prev, vals) == seq![v] + rest);
            assert(forall|i: int|
                0 <= i < rest.len() ==> (seq![v] + rest)[i + 1] == #[trigger] rest[i]);
        }
    }
}

/// Notification economy: each step delivers at most one wakeup, so over
/// any history the number of wakeups is bounded by the number of steps —
/// there are no needless wakeups beyond the mutations themselves.
pub proof fn lemma_wakes_bounded(s: CellState, ops: Seq<Op>)
    ensures
        run_ops(s, ops).wakes.len() <= s.wakes.len() + ops.len(),
    decreases ops.len(),
{
    if ops.len() == 0 {
    } else {
        lemma_wakes_bounded(apply_op(s, ops[0]), ops.subrange(1, ops.len() as int));
    }
}

/// Registering overwrites: after two registrations the slot holds only
/// the later one.
pub proof fn lemma_register_overwrites(s: CellState, a: u64, b: u64)
    ensures
        register_spec(register_spec(s, a), b).slot == Some(b),
{
}

/// Single-waiter starvation: once the slot no longer holds waiter `a`,
/// any history that never registers `a` again never wakes `a` — its wake
/// history grows only by other waiters, with what was delivered before
/// kept intact. Combined with [`lemma_register_overwrites`]: of two
/// overlapping waits, only the most recently registered is ever notified.
pub proof fn lemma_single_waiter_starvation(s: CellState, ops: Seq<Op>, a: u64)
    requires
        s.slot != Some(a),
        forall|i: int| 0 <= i < ops.len() ==> ops[i] != Op::Register(a),
    ensures
        run_ops(s, ops).slot != Some(a),
        run_ops(s, ops).wakes.len() >= s.wakes.len(),
        forall|j: int| 0 <= j < s.wakes.len() ==> run_ops(s, ops).wakes[j] == s.wakes[j],
        forall|j: int|
            s.wakes.len() <= j < run_ops(s, ops).wakes.len() ==> run_ops(s, ops).wakes[j] != a,
    decreases ops.len(),
{
    if ops.len() == 0 {
    } else {
        let s1 = apply_op(s, ops[0]);
        let tail = ops.subrange(1, ops.len() as int);
        assert(s1.slot != Some(a));
        assert(s1.wakes.len() >= s.wakes.len());
        assert(forall|j: int| 0 <= j < s.wakes.len() ==> s1.wakes[j] == s.wakes[j]);
        assert(forall|j: int| s.wakes.len() <= j < s1.wakes.len() ==> s1.wakes[j] != a);
        assert(forall|i: int| 0 <= i < tail.len() ==> tail[i] != Op::Register(a));
        lemma_single_waiter_starvation(s1, tail, a);
        assert forall|j: int|
            s.wakes.len() <= j < run_ops(s, ops).wakes.len() implies run_ops(s, ops).wakes[j]
            != a by {
            if j < s1.wakes.len() {
                assert(run_ops(s1, tail).wakes[j] == s1.wakes[j]);
            }
        }
    }
}

} // verus!
