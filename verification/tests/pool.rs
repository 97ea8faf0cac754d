use z3_app::db::models::users::Error;
use z3_app::db::pool::{refused_checkout, ConnectionPool};

#[test]
fn a_new_pool_has_every_connection_free() {
    let pool = ConnectionPool::new(3);
    assert_eq!(pool.capacity(), 3);
    assert_eq!(pool.in_use(), 0);
    assert_eq!(pool.available(), 3);
    assert!(pool.is_online());
}

#[test]
fn checkout_counts_up_and_fails_fast_when_exhausted() {
    let mut pool = ConnectionPool::new(2);
    let first = pool.checkout().unwrap();
    assert_eq!((first.slot(), pool.in_use(), pool.available()), (1, 1, 1));
    let second = pool.checkout().unwrap();
    assert_eq!((second.slot(), pool.in_use(), pool.available()), (2, 2, 0));
    assert_eq!(pool.checkout().map(|c| c.slot()), Err(Error::PoolExhausted));
    assert_eq!((pool.in_use(), pool.available()), (2, 0));
    pool.checkin(second);
    assert_eq!((pool.in_use(), pool.available()), (1, 1));
    let again = pool.checkout().unwrap();
    assert_eq!(again.slot(), 2);
    pool.checkin(again);
    pool.checkin(first);
    assert_eq!((pool.in_use(), pool.available()), (0, 2));
}

#[test]
fn checkout_fails_when_the_store_is_out_of_reach() {
    let mut pool = ConnectionPool::new(2);
    let held = pool.checkout().unwrap();
    pool.set_online(false);
    assert!(!pool.is_online());
    assert_eq!(pool.checkout().map(|c| c.slot()), Err(Error::ConnectFailed));
    assert_eq!((pool.in_use(), pool.available()), (1, 1));
    pool.checkin(held);
    assert_eq!(pool.in_use(), 0);
    pool.set_online(true);
    assert_eq!(pool.checkout().map(|c| c.slot()), Ok(1));
}

#[test]
fn exhaustion_is_reported_before_connectivity() {
    let mut pool = ConnectionPool::new(1);
    let _held = pool.checkout().unwrap();
    pool.set_online(false);
    assert_eq!(pool.checkout().map(|c| c.slot()), Err(Error::PoolExhausted));
    let mut none = ConnectionPool::new(0);
    assert_eq!(none.checkout().map(|c| c.slot()), Err(Error::PoolExhausted));
}

#[test]
fn checkin_on_an_idle_pool_changes_nothing() {
    let mut donor = ConnectionPool::new(1);
    let stray = donor.checkout().unwrap();
    let mut pool = ConnectionPool::new(2);
    pool.checkin(stray);
    assert_eq!((pool.in_use(), pool.available(), pool.capacity()), (0, 2, 2));
}

#[test]
fn a_refused_checkout_is_named_from_the_counters() {
    assert_eq!(refused_checkout(10, 10, 0), Error::PoolExhausted);
    assert_eq!(refused_checkout(10, 10, 1), Error::ConnectFailed);
    assert_eq!(refused_checkout(10, 3, 0), Error::ConnectFailed);
    assert_eq!(refused_checkout(10, 0, 0), Error::ConnectFailed);
    assert_eq!(refused_checkout(10, 12, 1), Error::PoolExhausted);
    assert_eq!(refused_checkout(0, 0, 0), Error::PoolExhausted);
    assert_eq!(refused_checkout(1, 0, 5), Error::ConnectFailed);
    assert_eq!(refused_checkout(u32::MAX, u32::MAX, 0), Error::PoolExhausted);
}

#[test]
fn with_connection_hands_the_connection_back() {
    let mut pool = ConnectionPool::new(2);
    let seen = pool.with_connection(|connection| connection.slot());
    assert_eq!(seen, Ok(1));
    assert_eq!((pool.in_use(), pool.available()), (0, 2));
    let held = pool.checkout().unwrap();
    assert_eq!(pool.with_connection(|connection| connection.slot() * 10), Ok(20));
    assert_eq!((pool.in_use(), pool.available()), (1, 1));
    pool.checkin(held);
    assert_eq!(pool.in_use(), 0);
}

#[test]
fn with_connection_does_not_run_the_work_without_a_connection() {
    let mut pool = ConnectionPool::new(1);
    let held = pool.checkout().unwrap();
    let mut ran = false;
    let outcome = pool.with_connection(|_| ran = true);
    assert_eq!(outcome, Err(Error::PoolExhausted));
    assert!(!ran);
    assert_eq!(pool.in_use(), 1);
    pool.checkin(held);
    pool.set_online(false);
    let outcome = pool.with_connection(|_| ran = true);
    assert_eq!(outcome, Err(Error::ConnectFailed));
    assert!(!ran);
    assert_eq!(pool.in_use(), 0);
}

#[test]
fn calls_that_overlap_leave_the_pool_at_its_baseline() {
    let mut pool = ConnectionPool::new(3);
    let baseline = pool.available();
    let mut held = Vec::new();
    let mut refused = 0;
    for _ in 0..5 {
        match pool.checkout() {
            Ok(connection) => held.push(connection),
            Err(fault) => {
                assert_eq!(fault, Error::PoolExhausted);
                refused += 1;
            }
        }
    }
    assert_eq!((held.len(), refused, pool.available()), (3, 2, 0));
    let middle = held.remove(1);
    pool.checkin(middle);
    assert_eq!(pool.available(), 1);
    held.push(pool.checkout().unwrap());
    while let Some(connection) = held.pop() {
        pool.checkin(connection);
    }
    assert_eq!(pool.available(), baseline);
    assert_eq!(pool.in_use(), 0);
}
