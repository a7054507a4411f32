//! Protocol scenarios, run as sequential schedules: a writer's mutations
//! and a waiter's polls are interleaved by hand, as a scheduler would
//! after each wakeup.

use async_atomic::{Atomic, GenericSubscriber};

#[test]
fn wait_pending_without_writer() {
    let mut cell = Atomic::new(0);
    let mut sub = cell.subscribe_ref();
    let wait = sub.wait(|x| x > 0);
    // No writer: however often it is polled, the wait must not complete.
    for _ in 0..10 {
        assert_eq!(wait.poll(&mut cell), None);
    }
    assert_eq!(cell.load(), 0);
}

#[test]
fn wait_completes_after_increment() {
    let mut cell = Atomic::new(0);
    let mut sub = cell.subscribe_ref();
    let wait = sub.wait(|x| x > 0);
    assert_eq!(wait.poll(&mut cell), None);
    // The writer increments; the registered waiter is woken and re-polls.
    assert_eq!(cell.fetch_add(1), 0);
    assert_eq!(wait.poll(&mut cell), Some(1));
}

#[test]
fn many_increments_none_lost() {
    let mut cell = Atomic::new(0);
    let mut sub = cell.subscribe_ref();
    let wait = sub.wait(|x| x == 256);
    for _ in 0..256 {
        cell.fetch_add(1);
    }
    assert_eq!(wait.poll(&mut cell), Some(256));
}

#[test]
fn ping_pong_drains_to_zero() {
    let mut cell = Atomic::new(0);
    let mut sub = cell.subscribe_ref();
    let drain = sub.wait_and_update(|x| if x >= 17 { Some(x - 17) } else { None });
    let mut completions: u64 = 0;
    // The producer adds 29 seventeen times; after each addition the
    // consumer's conditional update runs until it declines.
    for _ in 0..17 {
        cell.fetch_add(29);
        while drain.poll(&mut cell).is_some() {
            completions += 1;
        }
    }
    assert_eq!(completions, 29);
    assert_eq!(cell.load(), 0);
}

#[test]
fn wait_and_update_returns_prior_value() {
    let mut cell = Atomic::new(40);
    let mut sub = cell.subscribe_ref();
    let claim = sub.wait_and_update(|x| if x >= 17 { Some(x - 17) } else { None });
    assert_eq!(claim.poll(&mut cell), Some(40));
    assert_eq!(cell.load(), 23);
}

#[test]
fn stream_counts_to_sixty_four() {
    let mut cell = Atomic::new(0);
    let sub = cell.subscribe_ref();
    let mut stream = sub.into_stream();
    let mut seen: Vec<u64> = Vec::new();
    // The initial value is yielded first, then each increment's result.
    match stream.poll(&mut cell) {
        Some(v) => seen.push(v),
        None => panic!("the first observation must be yielded"),
    }
    for _ in 0..64 {
        cell.fetch_add(1);
        match stream.poll(&mut cell) {
            Some(v) => seen.push(v),
            None => panic!("a changed value must be yielded"),
        }
    }
    let expected: Vec<u64> = (0..=64).collect();
    assert_eq!(seen, expected);
}

#[test]
fn stream_stays_pending_without_change() {
    let mut cell = Atomic::new(5);
    let sub = cell.subscribe_ref();
    let mut stream = sub.into_stream();
    assert_eq!(stream.poll(&mut cell), Some(5));
    assert_eq!(stream.poll(&mut cell), None);
    cell.store(5);
    assert_eq!(stream.poll(&mut cell), None);
    cell.store(6);
    assert_eq!(stream.poll(&mut cell), Some(6));
}

#[test]
fn stream_never_terminates() {
    let mut cell = Atomic::new(0);
    let sub = cell.subscribe_ref();
    let mut stream = sub.into_stream();
    assert!(!stream.is_terminated());
    assert_eq!(stream.poll_next(&mut cell), Some(Some(0)));
    assert_eq!(stream.poll_next(&mut cell), None);
    assert!(!stream.is_terminated());
}

#[test]
fn owning_subscription_keeps_cell_reachable() {
    let cell = Atomic::new(1);
    let mut sub = cell.subscribe();
    let wait = sub.wait(|x| x >= 3);
    assert_eq!(wait.poll(&mut sub.cell), None);
    sub.cell.fetch_add(2);
    assert_eq!(wait.poll(&mut sub.cell), Some(3));
}

#[test]
fn shared_flavor_subscription_behaves_like_owning() {
    let cell = Atomic::new(0);
    let mut sub = cell.subscribe_arc();
    let wait = sub.wait(|x| x == 2);
    sub.cell.store(2);
    assert_eq!(wait.poll(&mut sub.cell), Some(2));
}

#[test]
fn owning_subscription_into_stream_hands_cell_back() {
    let cell = Atomic::new(3);
    let sub = GenericSubscriber::new(cell);
    let (mut stream, mut cell) = sub.into_stream();
    assert_eq!(stream.poll(&mut cell), Some(3));
    cell.fetch_add(1);
    assert_eq!(stream.poll(&mut cell), Some(4));
}

#[test]
fn subscription_mints_distinct_waiters() {
    let mut cell = Atomic::new(0);
    let mut sub = cell.subscribe_ref();
    // Two overlapping waits are distinct waiters; the wake slot only ever
    // holds the most recently polled one, so overlapping them starves the
    // other. The identities make the hazard visible.
    let first = sub.wait(|x| x > 0);
    let second = sub.wait(|x| x > 0);
    assert_ne!(first.waiter, second.waiter);
    assert_eq!(first.waiter, 0);
    assert_eq!(second.waiter, 1);
}

#[test]
fn predicate_sees_poll_time_value_only() {
    let mut cell = Atomic::new(0);
    let mut sub = cell.subscribe_ref();
    let wait = sub.wait(|x| x == 1);
    assert_eq!(wait.poll(&mut cell), None);
    // The value flickers through the satisfying state between polls; the
    // poll-time evaluation does not see it.
    cell.store(1);
    cell.store(2);
    assert_eq!(wait.poll(&mut cell), None);
}
