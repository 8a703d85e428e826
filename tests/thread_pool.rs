use exchanger::job_queue::{JobQueue, Received};
use exchanger::thread_pool::{Claim, PoolError, ThreadPool};
use exchanger::worker::{Worker, WorkerState};

/// Lets every idle worker claim in turn and runs what it gets, until a full
/// round makes no progress. Returns the jobs in the order they started.
fn drive(pool: &mut ThreadPool<u64>) -> Vec<u64> {
    let mut ran = Vec::new();
    loop {
        let mut progress = false;
        for id in 0..pool.num_workers() {
            if pool.worker(id).state == WorkerState::Idle {
                match pool.claim(id) {
                    Claim::Run(job) => {
                        ran.push(job);
                        pool.finish(id);
                        progress = true;
                    }
                    Claim::Exit => progress = true,
                    Claim::Wait => {}
                }
            }
        }
        if !progress {
            return ran;
        }
    }
}

#[test]
fn empty_pool_shuts_down_and_every_worker_exits() {
    for count in 1..=8usize {
        let mut pool: ThreadPool<u64> = ThreadPool::new(count).unwrap();
        let order = pool.shutdown();
        assert_eq!(order, (0..count).collect::<Vec<usize>>());
        for id in 0..count {
            assert!(matches!(pool.claim(id), Claim::Exit));
        }
        assert!(pool.is_terminated());
        assert_eq!(pool.running(), 0);
    }
}

#[test]
fn zero_workers_is_refused() {
    let r: Result<ThreadPool<u64>, PoolError> = ThreadPool::new(0);
    assert!(matches!(r, Err(PoolError::NoWorkers)));
}

#[test]
fn new_pool_has_indexed_idle_workers() {
    let pool: ThreadPool<u64> = ThreadPool::new(4).unwrap();
    assert_eq!(pool.num_workers(), 4);
    for id in 0..4 {
        assert_eq!(pool.worker(id).id, id);
        assert_eq!(pool.worker(id).state, WorkerState::Idle);
    }
    assert!(pool.is_accepting());
    assert_eq!(pool.pending_len(), 0);
    assert!(!pool.is_terminated());
}

#[test]
fn every_job_runs_exactly_once() {
    let n: u64 = 50;
    let mut pool = ThreadPool::new(3).unwrap();
    for job in 0..n {
        pool.execute(job);
    }
    let mut ran = drive(&mut pool);
    pool.shutdown();
    ran.extend(drive(&mut pool));
    assert!(pool.is_terminated());
    assert_eq!(ran.len() as u64, n);
    let mut counts = vec![0u32; n as usize];
    for job in ran {
        counts[job as usize] += 1;
    }
    assert!(counts.iter().all(|c| *c == 1));
}

#[test]
fn single_worker_runs_in_submission_order() {
    let mut pool = ThreadPool::new(1).unwrap();
    for job in 0..20u64 {
        pool.execute(job);
    }
    let ran = drive(&mut pool);
    assert_eq!(ran, (0..20u64).collect::<Vec<u64>>());
}

#[test]
fn at_most_pool_size_jobs_run_at_once() {
    let mut pool = ThreadPool::new(3).unwrap();
    for job in 0..5u64 {
        pool.execute(job);
    }
    for id in 0..3 {
        assert!(matches!(pool.claim(id), Claim::Run(j) if j == id as u64));
    }
    assert_eq!(pool.running(), 3);
    assert_eq!(pool.pending_len(), 2);
    assert!((0..3).all(|id| pool.worker(id).state == WorkerState::Busy));
    pool.finish(1);
    assert_eq!(pool.running(), 2);
    assert!(matches!(pool.claim(1), Claim::Run(3)));
    assert_eq!(pool.running(), 3);
    assert_eq!(pool.pending_len(), 1);
}

#[test]
fn failed_job_does_not_stop_later_jobs() {
    let mut pool = ThreadPool::new(2).unwrap();
    for job in 0..4u64 {
        pool.execute(job);
    }
    // Job 0 fails while worker 0 runs it; the worker reports back all the same.
    assert!(matches!(pool.claim(0), Claim::Run(0)));
    pool.finish(0);
    assert_eq!(pool.worker(0).state, WorkerState::Idle);
    assert!(matches!(pool.claim(0), Claim::Run(1)));
    pool.finish(0);
    let ran = drive(&mut pool);
    assert_eq!(ran, vec![2, 3]);
}

#[test]
fn shutdown_right_after_submitting_still_runs_everything() {
    let mut pool = ThreadPool::new(4).unwrap();
    for job in 0..7u64 {
        pool.execute(job);
    }
    pool.shutdown();
    assert!(!pool.is_accepting());
    assert_eq!(pool.pending_len(), 7);
    let mut ran = drive(&mut pool);
    assert!(pool.is_terminated());
    ran.sort();
    assert_eq!(ran, (0..7u64).collect::<Vec<u64>>());
}

#[test]
fn idle_worker_waits_while_open_and_empty() {
    let mut pool: ThreadPool<u64> = ThreadPool::new(2).unwrap();
    assert!(matches!(pool.claim(0), Claim::Wait));
    assert_eq!(pool.worker(0).state, WorkerState::Idle);
    pool.execute(9);
    assert!(matches!(pool.claim(0), Claim::Run(9)));
}

#[test]
fn worker_starts_idle() {
    let w = Worker::new(5);
    assert_eq!(w.id, 5);
    assert_eq!(w.state, WorkerState::Idle);
}

#[test]
fn queue_is_fifo_and_close_keeps_pending_items() {
    let mut q = JobQueue::new();
    assert!(q.is_open());
    assert!(matches!(q.receive(), Received::Empty));
    q.send("a");
    q.send("b");
    q.close();
    assert!(!q.is_open());
    assert_eq!(q.len(), 2);
    assert!(matches!(q.receive(), Received::Item("a")));
    assert!(matches!(q.receive(), Received::Item("b")));
    assert!(matches!(q.receive(), Received::Closed));
    assert_eq!(q.len(), 0);
}
