use worker_pool::{Checkout, Guard, Pool};

fn claim(pool: &mut Pool<u32>, next_worker: u32) -> Option<Guard> {
    match pool.get() {
        Checkout::Reused(g) => Some(g),
        Checkout::Grow => Some(pool.add(next_worker)),
        Checkout::Wait => None,
    }
}

#[test]
fn new_pool_creates_nothing() {
    let pool: Pool<u32> = Pool::new(4);
    assert_eq!(pool.capacity(), 4);
    assert_eq!(pool.len(), 0);
}

#[test]
fn grows_lazily_then_waits_at_capacity() {
    let mut pool: Pool<u32> = Pool::new(3);
    let mut guards = Vec::new();
    for i in 0..3u32 {
        assert!(matches!(pool.get(), Checkout::Grow));
        let g = pool.add(100 + i);
        assert_eq!(g.id(), i as usize);
        guards.push(g);
    }
    assert_eq!(pool.len(), 3);
    // the fourth caller has to wait
    assert!(matches!(pool.get(), Checkout::Wait));
    assert!(matches!(pool.get(), Checkout::Wait));
    let g = guards.pop().unwrap();
    pool.release(g);
    match pool.get() {
        Checkout::Reused(g) => assert_eq!(g.id(), 2),
        _ => panic!("a released slot must be reused"),
    }
}

#[test]
fn capacity_zero_always_waits() {
    let mut pool: Pool<u32> = Pool::new(0);
    assert!(matches!(pool.get(), Checkout::Wait));
    assert_eq!(pool.len(), 0);
}

#[test]
fn release_returns_exactly_one_slot() {
    let mut pool: Pool<u32> = Pool::new(2);
    let a = claim(&mut pool, 10).unwrap();
    let b = claim(&mut pool, 11).unwrap();
    assert!(claim(&mut pool, 12).is_none());
    pool.release(a);
    let c = claim(&mut pool, 13).unwrap();
    assert_eq!(c.id(), 0);
    assert!(claim(&mut pool, 14).is_none());
    pool.release(b);
    pool.release(c);
    // both slots queued once each: two claims succeed, the third waits
    let d = claim(&mut pool, 15).unwrap();
    let e = claim(&mut pool, 16).unwrap();
    assert_eq!(d.id(), 1);
    assert_eq!(e.id(), 0);
    assert!(claim(&mut pool, 17).is_none());
    assert_eq!(pool.len(), 2);
}

#[test]
fn idle_pool_reuses_without_growing() {
    let mut pool: Pool<u32> = Pool::new(5);
    let mut guards = Vec::new();
    for i in 0..3u32 {
        guards.push(claim(&mut pool, i).unwrap());
    }
    for g in guards {
        pool.release(g);
    }
    assert!(matches!(pool.get(), Checkout::Reused(_)));
    assert_eq!(pool.len(), 3);
}

#[test]
fn resource_is_the_claimed_slot() {
    let mut pool: Pool<String> = Pool::new(2);
    assert!(matches!(pool.get(), Checkout::Grow));
    let a = pool.add("first".to_string());
    assert!(matches!(pool.get(), Checkout::Grow));
    let b = pool.add("second".to_string());
    assert_eq!(pool.resource(&a), "first");
    assert_eq!(pool.resource(&b), "second");
}

#[test]
fn sequential_jobs_create_at_most_capacity_workers() {
    let mut pool: Pool<u32> = Pool::new(2);
    let mut created = 0u32;
    for _ in 0..3 {
        let g = match pool.get() {
            Checkout::Reused(g) => g,
            Checkout::Grow => {
                created += 1;
                pool.add(created)
            }
            Checkout::Wait => panic!("no job is in flight"),
        };
        pool.release(g);
    }
    assert!(pool.len() <= 2);
    assert!(created <= 2);
    assert_eq!(pool.len(), 1);
}

#[test]
fn second_caller_waits_then_shares_the_worker() {
    let mut pool: Pool<u32> = Pool::new(1);
    let a = claim(&mut pool, 7).unwrap();
    assert!(claim(&mut pool, 8).is_none());
    let worker_a = *pool.resource(&a);
    let sum = 3u8 + 5;
    assert_eq!(sum, 8);
    pool.release(a);
    let b = claim(&mut pool, 9).unwrap();
    assert_eq!(b.id(), 0);
    assert_eq!(*pool.resource(&b), worker_a);
    assert_eq!(pool.len(), 1);
}
