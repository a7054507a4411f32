//! Tests of the shared, lock-free cell, driven single-threadedly with a
//! no-op waker standing in for a task's real one.

use async_atomic::AsyncAtomic;
use futures::task::noop_waker;

#[test]
fn shared_new_then_load() {
    let cell = AsyncAtomic::new(42);
    assert_eq!(cell.load(), 42);
}

#[test]
fn shared_from_impl_then_load() {
    let cell = AsyncAtomic::from_impl(11);
    assert_eq!(cell.load(), 11);
}

#[test]
fn shared_store_then_load() {
    let cell = AsyncAtomic::new(0);
    cell.store(77);
    assert_eq!(cell.load(), 77);
}

#[test]
fn shared_swap_returns_previous() {
    let cell = AsyncAtomic::new(5);
    assert_eq!(cell.swap(6), 5);
    assert_eq!(cell.load(), 6);
}

#[test]
fn shared_compare_exchange_match() {
    let cell = AsyncAtomic::new(5);
    assert_eq!(cell.compare_exchange(5, 10), Ok(5));
    assert_eq!(cell.load(), 10);
}

#[test]
fn shared_compare_exchange_mismatch() {
    let cell = AsyncAtomic::new(10);
    assert_eq!(cell.compare_exchange(6, 12), Err(10));
    assert_eq!(cell.load(), 10);
}

#[test]
fn shared_fetch_update_applies() {
    let cell = AsyncAtomic::new(7);
    assert_eq!(cell.fetch_update(|x| Some(x + 1)), Ok(7));
    assert_eq!(cell.load(), 8);
}

#[test]
fn shared_fetch_update_declines() {
    let cell = AsyncAtomic::new(7);
    assert_eq!(cell.fetch_update(|_| None), Err(7));
    assert_eq!(cell.load(), 7);
}

#[test]
fn shared_arithmetic_and_bitwise() {
    let cell = AsyncAtomic::new(100);
    assert_eq!(cell.fetch_add(20), 100);
    assert_eq!(cell.fetch_sub(40), 120);
    assert_eq!(cell.load(), 80);
    let bits = AsyncAtomic::new(0b1100);
    assert_eq!(bits.fetch_and(0b1010), 0b1100);
    assert_eq!(bits.fetch_or(0b0001), 0b1000);
    assert_eq!(bits.fetch_xor(0b1111), 0b1001);
    assert_eq!(bits.load(), 0b0110);
}

#[test]
fn shared_fetch_add_wraps() {
    let cell = AsyncAtomic::new(u64::MAX);
    assert_eq!(cell.fetch_add(2), u64::MAX);
    assert_eq!(cell.load(), 1);
}

#[test]
fn shared_max_and_min() {
    let cell = AsyncAtomic::new(10);
    assert_eq!(cell.fetch_max(15), 10);
    assert_eq!(cell.fetch_min(3), 15);
    assert_eq!(cell.load(), 3);
}

#[test]
fn shared_poll_wait_pends_then_completes() {
    let cell = AsyncAtomic::new(0);
    let waker = noop_waker();
    assert_eq!(cell.poll_wait(&waker, |x| x > 0), None);
    cell.fetch_add(1);
    assert_eq!(cell.poll_wait(&waker, |x| x > 0), Some(1));
}

#[test]
fn shared_poll_wait_and_update_claims() {
    let cell = AsyncAtomic::new(5);
    let waker = noop_waker();
    let step = |x: u64| if x >= 17 { Some(x - 17) } else { None };
    assert_eq!(cell.poll_wait_and_update(&waker, step), None);
    cell.fetch_add(35);
    assert_eq!(cell.poll_wait_and_update(&waker, step), Some(40));
    assert_eq!(cell.load(), 23);
}

#[test]
fn shared_poll_changed_yields_on_change_only() {
    let cell = AsyncAtomic::new(0);
    let waker = noop_waker();
    let mut prev = None;
    assert_eq!(cell.poll_changed(&waker, &mut prev), Some(0));
    assert_eq!(cell.poll_changed(&waker, &mut prev), None);
    cell.store(3);
    assert_eq!(cell.poll_changed(&waker, &mut prev), Some(3));
    assert_eq!(prev, Some(3));
}
