use workpool::pool::PoolCreationError;
use workpool::pool::ThreadPool;

#[test]
fn zero_size_is_rejected() {
    let r = ThreadPool::<fn()>::new(0);
    match r {
        Ok(_) => panic!("a pool of zero workers must be refused"),
        Err(e) => assert_eq!(e.details, "Pool size must be greater than 0"),
    }
}

#[test]
fn positive_size_succeeds() {
    let pool = ThreadPool::<fn()>::new(1).unwrap();
    assert_eq!(pool.worker_count(), 1);
    let pool = ThreadPool::<fn()>::new(4).unwrap();
    assert_eq!(pool.worker_count(), 4);
}

#[test]
fn runners_are_numbered_in_creation_order() {
    let mut pool = ThreadPool::<fn()>::new(4).unwrap();
    let runners = pool.take_runners().unwrap();
    assert_eq!(runners.len(), 4);
    for (i, w) in runners.iter().enumerate() {
        assert_eq!(w.id(), i);
    }
}

#[test]
fn runners_only_come_once() {
    let mut pool = ThreadPool::<fn()>::new(2).unwrap();
    assert!(pool.take_runners().is_some());
    assert!(pool.take_runners().is_none());
    assert!(pool.take_runners().is_none());
    assert_eq!(pool.worker_count(), 2);
}

#[test]
fn dispose_returns_the_join_plan_in_creation_order() {
    let pool = ThreadPool::<fn()>::new(3).unwrap();
    let plan = pool.dispose();
    assert_eq!(plan.join_order, vec![0, 1, 2]);
}

#[test]
fn error_keeps_its_message() {
    let e = PoolCreationError::new("no good");
    assert_eq!(e.details, "no good");
}
