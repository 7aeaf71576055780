//! The worker pool's dispatch protocol: every job submitted before
//! shutdown completes exactly once, in submission order, and shutdown
//! retires every worker.
use rust_server::pool::{Message, WorkerPool};

#[test]
fn fewer_jobs_than_workers() {
    let mut pool = WorkerPool::new(4);
    pool.execute(10);
    pool.execute(11);
    pool.shutdown();
    pool.drain();
    assert_eq!(pool.completed, vec![10, 11]);
    assert_eq!(pool.live, 0);
    assert!(pool.queue.is_empty());
}

#[test]
fn more_jobs_than_workers() {
    let mut pool = WorkerPool::new(2);
    for id in 0..7u64 {
        pool.execute(id);
    }
    pool.shutdown();
    pool.drain();
    assert_eq!(pool.completed, vec![0, 1, 2, 3, 4, 5, 6]);
    assert_eq!(pool.live, 0);
    assert!(pool.queue.is_empty());
}

#[test]
fn no_jobs_just_shutdown() {
    let mut pool = WorkerPool::new(3);
    pool.shutdown();
    pool.drain();
    assert!(pool.completed.is_empty());
    assert_eq!(pool.live, 0);
    assert!(pool.queue.is_empty());
}

#[test]
fn queue_holds_submission_order() {
    let mut pool = WorkerPool::new(1);
    pool.execute(5);
    pool.execute(6);
    assert_eq!(pool.queue, vec![Message::NewJob(5), Message::NewJob(6)]);
    pool.shutdown();
    assert_eq!(
        pool.queue,
        vec![Message::NewJob(5), Message::NewJob(6), Message::Terminate]
    );
    pool.drain();
    assert_eq!(pool.completed, vec![5, 6]);
    assert_eq!(pool.live, 0);
}

#[test]
fn one_terminate_per_worker() {
    let mut pool = WorkerPool::new(5);
    pool.shutdown();
    assert_eq!(pool.queue.len(), 5);
    assert!(pool.queue.iter().all(|m| matches!(m, Message::Terminate)));
    pool.drain();
    assert_eq!(pool.live, 0);
}
