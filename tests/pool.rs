use mongors::pool::{Checkout, Connection, ConnectionPool, PoolOptions, WaitQueue};

fn options(min_size: u64, max_size: u64) -> PoolOptions {
    PoolOptions { min_size, max_size, max_idle_ms: 100, wait_queue_timeout_ms: 500 }
}

fn connection_of(r: Checkout) -> Connection {
    match r {
        Checkout::Ready(c) | Checkout::Create(c) => c,
        Checkout::Full => panic!("pool full"),
    }
}

#[test]
fn third_checkout_waits_for_a_checkin() {
    let mut pool = ConnectionPool::new(1, options(0, 2));
    let first = pool.checkout(10);
    let second = pool.checkout(11);
    assert!(matches!(first, Checkout::Create(_)));
    assert!(matches!(second, Checkout::Create(_)));
    assert_eq!(pool.checkout(12), Checkout::Full);
    assert!(pool.checkin(connection_of(first), true, 13));
    let third = pool.checkout(14);
    assert_eq!(third, Checkout::Ready(Connection { id: 0, generation: 0, created_at: 10, last_used_at: 14 }));
    assert_eq!(pool.checked_out, 2);
}

#[test]
fn stale_checkin_after_network_error_is_discarded() {
    let mut pool = ConnectionPool::new(1, options(0, 4));
    let before = connection_of(pool.checkout(1));
    let failed = connection_of(pool.checkout(2));
    assert_eq!(before.generation, 0);
    pool.checkin(failed, false, 3);
    pool.clear();
    assert_eq!(pool.generation, 1);
    assert!(!pool.checkin(before, true, 4));
    assert!(pool.available.is_empty());
    assert_eq!(pool.checked_out, 0);
    let next = pool.checkout(5);
    assert_eq!(next, Checkout::Create(Connection { id: 2, generation: 1, created_at: 5, last_used_at: 5 }));
}

#[test]
fn clear_retires_idle_connections() {
    let mut pool = ConnectionPool::new(1, options(0, 3));
    let a = connection_of(pool.checkout(1));
    let b = connection_of(pool.checkout(1));
    pool.checkin(a, true, 2);
    pool.checkin(b, true, 2);
    assert_eq!(pool.available.len(), 2);
    pool.clear();
    assert!(pool.available.is_empty());
    for now in 3..6 {
        let c = connection_of(pool.checkout(now));
        assert_eq!(c.generation, pool.generation);
        assert_ne!(c.id, a.id);
        assert_ne!(c.id, b.id);
    }
}

#[test]
fn total_never_exceeds_maximum() {
    let mut pool = ConnectionPool::new(1, options(0, 3));
    let mut held = Vec::new();
    for now in 0..10 {
        match pool.checkout(now) {
            Checkout::Ready(c) | Checkout::Create(c) => held.push(c),
            Checkout::Full => {
                let c = held.pop().unwrap();
                pool.checkin(c, true, now);
            }
        }
        assert!(pool.checked_out + pool.available.len() as u64 <= 3);
    }
}

#[test]
fn unusable_connection_is_discarded() {
    let mut pool = ConnectionPool::new(1, options(0, 2));
    let c = connection_of(pool.checkout(0));
    assert!(!pool.checkin(c, false, 1));
    assert!(pool.available.is_empty());
    assert_eq!(pool.checked_out, 0);
}

#[test]
fn failed_creation_frees_the_slot() {
    let mut pool = ConnectionPool::new(1, options(0, 1));
    assert!(matches!(pool.checkout(0), Checkout::Create(_)));
    assert_eq!(pool.checkout(0), Checkout::Full);
    pool.creation_failed();
    assert!(matches!(pool.checkout(0), Checkout::Create(_)));
}

#[test]
fn idle_connections_are_removed() {
    let mut pool = ConnectionPool::new(1, options(0, 3));
    let a = connection_of(pool.checkout(0));
    let b = connection_of(pool.checkout(0));
    pool.checkin(a, true, 10);
    pool.checkin(b, true, 150);
    pool.remove_idle(200);
    assert_eq!(pool.available.len(), 1);
    assert_eq!(pool.available[0].id, b.id);
    pool.remove_idle(251);
    assert!(pool.available.is_empty());
}

#[test]
fn pool_is_filled_to_its_minimum() {
    let mut pool = ConnectionPool::new(1, options(2, 3));
    let a = pool.reserve_for_minimum(0).unwrap();
    assert_eq!(a, Connection { id: 0, generation: 0, created_at: 0, last_used_at: 0 });
    let b = pool.reserve_for_minimum(0).unwrap();
    assert_eq!(b.id, 1);
    assert_eq!(pool.reserve_for_minimum(0), None);
    pool.checkin(a, true, 1);
    pool.checkin(b, true, 1);
    assert_eq!(pool.available.len(), 2);
    assert_eq!(pool.reserve_for_minimum(2), None);
}

#[test]
fn wait_queue_serves_in_order() {
    let mut q = WaitQueue::new();
    let first = q.join();
    let second = q.join();
    let third = q.join();
    assert!(q.is_first(first));
    assert!(!q.is_first(second));
    q.leave(second);
    assert_eq!(q.waiters, vec![first, third]);
    q.leave(first);
    assert!(q.is_first(third));
    q.leave(third);
    assert!(q.waiters.is_empty());
    assert!(!q.is_first(third));
}
