//! Unit tests for the sequential cell's operations.

use async_atomic::Atomic;

#[test]
fn new_then_load() {
    let cell = Atomic::new(42);
    assert_eq!(cell.load(), 42);
}

#[test]
fn from_impl_then_load() {
    let cell = Atomic::from_impl(7);
    assert_eq!(cell.load(), 7);
}

#[test]
fn store_then_load() {
    let mut cell = Atomic::new(0);
    cell.store(9001);
    assert_eq!(cell.load(), 9001);
}

#[test]
fn swap_returns_previous() {
    let mut cell = Atomic::new(5);
    assert_eq!(cell.swap(6), 5);
    assert_eq!(cell.load(), 6);
}

#[test]
fn compare_exchange_match() {
    let mut cell = Atomic::new(5);
    assert_eq!(cell.compare_exchange(5, 10), Ok(5));
    assert_eq!(cell.load(), 10);
}

#[test]
fn compare_exchange_mismatch_changes_nothing() {
    let mut cell = Atomic::new(10);
    assert_eq!(cell.compare_exchange(6, 12), Err(10));
    assert_eq!(cell.load(), 10);
}

#[test]
fn fetch_update_applies() {
    let mut cell = Atomic::new(7);
    assert_eq!(cell.fetch_update(|x| Some(x + 1)), Ok(7));
    assert_eq!(cell.fetch_update(|x| Some(x + 1)), Ok(8));
    assert_eq!(cell.load(), 9);
}

#[test]
fn fetch_update_declines() {
    let mut cell = Atomic::new(7);
    assert_eq!(cell.fetch_update(|_| None), Err(7));
    assert_eq!(cell.load(), 7);
}

#[test]
fn fetch_add_returns_previous() {
    let mut cell = Atomic::new(100);
    assert_eq!(cell.fetch_add(23), 100);
    assert_eq!(cell.load(), 123);
}

#[test]
fn fetch_add_wraps() {
    let mut cell = Atomic::new(u64::MAX);
    assert_eq!(cell.fetch_add(2), u64::MAX);
    assert_eq!(cell.load(), 1);
}

#[test]
fn fetch_sub_returns_previous() {
    let mut cell = Atomic::new(123);
    assert_eq!(cell.fetch_sub(23), 123);
    assert_eq!(cell.load(), 100);
}

#[test]
fn fetch_sub_wraps() {
    let mut cell = Atomic::new(1);
    assert_eq!(cell.fetch_sub(3), 1);
    assert_eq!(cell.load(), u64::MAX - 1);
}

#[test]
fn fetch_and_masks() {
    let mut cell = Atomic::new(0b1101);
    assert_eq!(cell.fetch_and(0b0111), 0b1101);
    assert_eq!(cell.load(), 0b0101);
}

#[test]
fn fetch_or_sets() {
    let mut cell = Atomic::new(0b1000);
    assert_eq!(cell.fetch_or(0b0011), 0b1000);
    assert_eq!(cell.load(), 0b1011);
}

#[test]
fn fetch_xor_flips() {
    let mut cell = Atomic::new(0b1010);
    assert_eq!(cell.fetch_xor(0b0110), 0b1010);
    assert_eq!(cell.load(), 0b1100);
}

#[test]
fn fetch_max_takes_larger() {
    let mut cell = Atomic::new(10);
    assert_eq!(cell.fetch_max(15), 10);
    assert_eq!(cell.load(), 15);
    assert_eq!(cell.fetch_max(3), 15);
    assert_eq!(cell.load(), 15);
}

#[test]
fn fetch_min_takes_smaller() {
    let mut cell = Atomic::new(10);
    assert_eq!(cell.fetch_min(3), 10);
    assert_eq!(cell.load(), 3);
    assert_eq!(cell.fetch_min(8), 3);
    assert_eq!(cell.load(), 3);
}
