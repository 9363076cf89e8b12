use std::sync::Arc;
use std::sync::Mutex;
use workpool::pool::run_taken;
use workpool::pool::ThreadPool;
use workpool::pool::Worker;
use workpool::pool::WorkerEvent;
use workpool::queue::close_step;
use workpool::queue::initial_state;
use workpool::queue::send_step;
use workpool::queue::take_step;
use workpool::queue::JobQueue;
use workpool::queue::TakeOutcome;

type Log = Arc<Mutex<Vec<usize>>>;

fn log_job(log: Log, id: usize) -> impl FnOnce() + Send + 'static {
    move || {
        log.lock().unwrap().push(id);
    }
}

/// Drives every runner in rounds until each has observed end-of-stream,
/// the way the embedding program's worker threads would, just on one
/// thread.
fn drain<F: FnOnce() + Send + 'static>(runners: &[Worker<F>]) {
    let mut done = vec![false; runners.len()];
    while !done.iter().all(|d| *d) {
        for (i, w) in runners.iter().enumerate() {
            if !done[i] {
                match w.step().event {
                    WorkerEvent::Terminated => done[i] = true,
                    WorkerEvent::Ran => {}
                    WorkerEvent::Idle => {}
                }
            }
        }
    }
}

#[test]
fn every_job_runs_exactly_once() {
    let log: Log = Arc::new(Mutex::new(Vec::new()));
    let mut pool = ThreadPool::new(2).unwrap();
    let runners = pool.take_runners().unwrap();
    for id in 0..5 {
        assert!(pool.execute(log_job(Arc::clone(&log), id)).accepted);
    }
    pool.dispose();
    drain(&runners);
    let mut got = log.lock().unwrap().clone();
    got.sort();
    assert_eq!(got, vec![0, 1, 2, 3, 4]);
}

#[test]
fn four_workers_four_jobs_log_every_id() {
    let log: Log = Arc::new(Mutex::new(Vec::new()));
    let mut pool = ThreadPool::new(4).unwrap();
    let runners = pool.take_runners().unwrap();
    for id in 0..4 {
        assert!(pool.execute(log_job(Arc::clone(&log), id)).accepted);
    }
    pool.dispose();
    drain(&runners);
    let mut got = log.lock().unwrap().clone();
    got.sort();
    assert_eq!(got, vec![0, 1, 2, 3]);
}

#[test]
fn disposing_an_idle_pool_ends_every_worker_at_once() {
    let mut pool = ThreadPool::<fn()>::new(3).unwrap();
    let runners = pool.take_runners().unwrap();
    pool.dispose();
    for w in &runners {
        assert_eq!(w.step().event, WorkerEvent::Terminated);
        assert_eq!(w.step().event, WorkerEvent::Terminated);
    }
}

#[test]
fn job_sent_just_before_disposal_still_runs() {
    let log: Log = Arc::new(Mutex::new(Vec::new()));
    let mut pool = ThreadPool::new(1).unwrap();
    let runners = pool.take_runners().unwrap();
    assert!(pool.execute(log_job(Arc::clone(&log), 7)).accepted);
    pool.dispose();
    assert_eq!(runners[0].step().event, WorkerEvent::Ran);
    assert_eq!(runners[0].step().event, WorkerEvent::Terminated);
    assert_eq!(*log.lock().unwrap(), vec![7]);
}

#[test]
fn submitting_more_jobs_than_workers_queues_them_all() {
    let log: Log = Arc::new(Mutex::new(Vec::new()));
    let mut pool = ThreadPool::new(2).unwrap();
    let runners = pool.take_runners().unwrap();
    for id in 0..8 {
        // Submission never waits for a worker: every enqueue is accepted
        // at once.
        assert!(pool.execute(log_job(Arc::clone(&log), id)).accepted);
    }
    pool.dispose();
    drain(&runners);
    let mut got = log.lock().unwrap().clone();
    got.sort();
    assert_eq!(got, (0..8).collect::<Vec<usize>>());
}

#[test]
fn one_worker_runs_jobs_in_submission_order() {
    let log: Log = Arc::new(Mutex::new(Vec::new()));
    let mut pool = ThreadPool::new(1).unwrap();
    let runners = pool.take_runners().unwrap();
    for id in [3, 1, 2] {
        assert!(pool.execute(log_job(Arc::clone(&log), id)).accepted);
    }
    pool.dispose();
    drain(&runners);
    assert_eq!(*log.lock().unwrap(), vec![3, 1, 2]);
}

#[test]
fn idle_worker_reports_an_open_empty_queue() {
    let mut pool = ThreadPool::<fn()>::new(1).unwrap();
    let runners = pool.take_runners().unwrap();
    assert_eq!(runners[0].step().event, WorkerEvent::Idle);
    assert_eq!(runners[0].step().event, WorkerEvent::Idle);
    pool.dispose();
    assert_eq!(runners[0].step().event, WorkerEvent::Terminated);
}

#[test]
fn closed_queue_refuses_new_jobs_but_hands_out_old_ones() {
    let log: Log = Arc::new(Mutex::new(Vec::new()));
    let queue = JobQueue::new();
    assert!(queue.send(log_job(Arc::clone(&log), 1)).accepted);
    queue.close();
    assert!(!queue.send(log_job(Arc::clone(&log), 2)).accepted);
    match queue.try_take().outcome {
        TakeOutcome::Job(job) => job(),
        _ => panic!("the job accepted before closing must still come out"),
    }
    assert!(matches!(queue.try_take().outcome, TakeOutcome::Closed));
    assert_eq!(*log.lock().unwrap(), vec![1]);
}

#[test]
fn closing_twice_is_harmless() {
    let queue = JobQueue::<fn()>::new();
    queue.close();
    queue.close();
    assert!(matches!(queue.try_take().outcome, TakeOutcome::Closed));
}

#[test]
fn open_empty_queue_reports_empty_not_closed() {
    let queue = JobQueue::<fn()>::new();
    assert!(matches!(queue.try_take().outcome, TakeOutcome::Empty));
}

#[test]
fn the_transitions_act_on_plain_state_front_first() {
    let log: Log = Arc::new(Mutex::new(Vec::new()));
    let mut s = initial_state();
    assert!(matches!(take_step(&mut s), TakeOutcome::Empty));
    assert!(send_step(&mut s, log_job(Arc::clone(&log), 1)));
    assert!(send_step(&mut s, log_job(Arc::clone(&log), 2)));
    match take_step(&mut s) {
        TakeOutcome::Job(job) => job(),
        _ => panic!("two jobs are queued; the front one must come out"),
    }
    assert_eq!(*log.lock().unwrap(), vec![1]);
    close_step(&mut s);
    assert!(!send_step(&mut s, log_job(Arc::clone(&log), 3)));
    match take_step(&mut s) {
        TakeOutcome::Job(job) => job(),
        _ => panic!("the job accepted before closing survives the close"),
    }
    assert_eq!(*log.lock().unwrap(), vec![1, 2]);
    assert!(matches!(take_step(&mut s), TakeOutcome::Closed));
}

#[test]
fn run_taken_maps_each_outcome_onto_its_event() {
    let log: Log = Arc::new(Mutex::new(Vec::new()));
    let ev = run_taken(TakeOutcome::Job(log_job(Arc::clone(&log), 9)));
    assert_eq!(ev, WorkerEvent::Ran);
    assert_eq!(*log.lock().unwrap(), vec![9]);
    assert_eq!(run_taken::<fn()>(TakeOutcome::Empty), WorkerEvent::Idle);
    assert_eq!(run_taken::<fn()>(TakeOutcome::Closed), WorkerEvent::Terminated);
}
