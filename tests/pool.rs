use std::sync::atomic::{AtomicUsize, Ordering};
use std::sync::{Arc, Mutex};
use std::time::{Duration, Instant};

use thread_pool::{worker_step, Message, PoolCreationError, SharedReceiver, ThreadPool, Worker, WorkerAction};

type Job = Box<dyn FnOnce() + Send + 'static>;
type Rx = SharedReceiver<Message<Job>>;

/// A worker's body: receive, with the lock held for the receive only, and
/// act on what came, until told to terminate.
fn run_worker(receiver: Rx) {
    loop {
        let received = receiver.queue().lock().unwrap().recv().ok();
        match worker_step(received) {
            WorkerAction::Run(job) => job(),
            WorkerAction::Stop => break,
            WorkerAction::Fail => panic!("queue closed before terminate"),
        }
    }
}

/// A pool whose worker "threads" run on the caller's thread: the handle of
/// a worker is its share of the queue, and joining it runs the worker's
/// body to its end.
fn start(size: usize) -> Result<ThreadPool<Job, Rx>, PoolCreationError> {
    ThreadPool::new(size, |_id: usize, receiver: Rx| receiver)
}

fn stop(pool: &mut ThreadPool<Job, Rx>) -> bool {
    pool.teardown(|h: Rx| run_worker(h))
}

/// Runs queued jobs until the queue is empty, as idle workers would.
fn drain_jobs(receiver: &Rx) -> usize {
    let mut ran = 0;
    loop {
        let received = receiver.queue().lock().unwrap().try_recv().ok();
        match received {
            Some(Message::NewJob(job)) => {
                job();
                ran += 1;
            }
            Some(Message::Terminate) => panic!("terminate before teardown"),
            None => return ran,
        }
    }
}

fn busy_wait(d: Duration) {
    let t = Instant::now();
    while t.elapsed() < d {}
}

#[test]
fn zero_workers_is_refused() {
    let spawned = AtomicUsize::new(0);
    let r: Result<ThreadPool<Job, usize>, PoolCreationError> =
        ThreadPool::new(0, |id: usize, _rx: Rx| {
            spawned.fetch_add(1, Ordering::SeqCst);
            id
        });
    assert!(matches!(r, Err(PoolCreationError)));
    assert_eq!(spawned.load(Ordering::SeqCst), 0);
}

#[test]
fn error_message() {
    assert_eq!(PoolCreationError.message(), "Pool Creation Failed!");
}

#[test]
fn new_makes_exactly_size_workers() {
    for size in 1..=8usize {
        let spawned = AtomicUsize::new(0);
        let pool: ThreadPool<Job, usize> = ThreadPool::new(size, |id: usize, _rx: Rx| {
            spawned.fetch_add(1, Ordering::SeqCst);
            id * 10
        })
        .unwrap();
        assert_eq!(pool.size_of(), size);
        assert_eq!(spawned.load(Ordering::SeqCst), size);
        for (i, w) in pool.workers().iter().enumerate() {
            assert_eq!(w.id(), i);
            assert!(w.has_thread());
        }
    }
}

#[test]
fn teardown_joins_every_worker_in_order() {
    let mut pool: ThreadPool<Job, usize> =
        ThreadPool::new(3, |id: usize, _rx: Rx| id + 100).unwrap();
    let joined = Mutex::new(Vec::new());
    pool.teardown(|h: usize| joined.lock().unwrap().push(h));
    assert_eq!(*joined.lock().unwrap(), vec![100, 101, 102]);
    for w in pool.workers().iter() {
        assert!(!w.has_thread());
    }
}

#[test]
fn worker_thread_handle_taken_once() {
    let mut w = Worker::new(7, "handle");
    assert_eq!(w.id(), 7);
    assert!(w.has_thread());
    assert_eq!(w.take_thread(), Some("handle"));
    assert!(!w.has_thread());
    assert_eq!(w.take_thread(), None);
    assert_eq!(w.id(), 7);
}

#[test]
fn worker_step_decisions() {
    assert!(matches!(worker_step(Some(Message::NewJob(5u8))), WorkerAction::Run(5)));
    assert!(matches!(worker_step::<u8>(Some(Message::Terminate)), WorkerAction::Stop));
    assert!(matches!(worker_step::<u8>(None), WorkerAction::Fail));
}

#[test]
fn ten_jobs_on_four_workers_all_complete() {
    let shared: Mutex<Option<Rx>> = Mutex::new(None);
    let mut pool: ThreadPool<Job, Rx> =
        ThreadPool::new(4, |_id: usize, receiver: Rx| {
            *shared.lock().unwrap() = Some(receiver.share());
            receiver
        })
        .unwrap();
    let counter = Arc::new(AtomicUsize::new(0));
    for _ in 0..10 {
        let c = Arc::clone(&counter);
        assert!(pool.execute(Box::new(move || {
            c.fetch_add(1, Ordering::SeqCst);
        })));
    }
    let receiver = shared.lock().unwrap().take().unwrap();
    assert_eq!(drain_jobs(&receiver), 10);
    assert_eq!(counter.load(Ordering::SeqCst), 10);
    assert!(stop(&mut pool));
    assert_eq!(counter.load(Ordering::SeqCst), 10);
}

#[test]
fn teardown_waits_for_slow_and_queued_jobs() {
    let mut pool = start(1).unwrap();
    let counter = Arc::new(AtomicUsize::new(0));
    let c1 = Arc::clone(&counter);
    pool.execute(Box::new(move || {
        busy_wait(Duration::from_millis(50));
        c1.fetch_add(1, Ordering::SeqCst);
    }));
    let c2 = Arc::clone(&counter);
    pool.execute(Box::new(move || {
        c2.fetch_add(1, Ordering::SeqCst);
    }));
    assert_eq!(counter.load(Ordering::SeqCst), 0);
    assert!(stop(&mut pool));
    assert_eq!(counter.load(Ordering::SeqCst), 2);
}

#[test]
fn single_worker_runs_jobs_in_submission_order() {
    let mut pool = start(1).unwrap();
    let seen = Arc::new(Mutex::new(Vec::new()));
    let tick = Arc::new(AtomicUsize::new(0));
    for name in ["A", "B"] {
        let s = Arc::clone(&seen);
        let t = Arc::clone(&tick);
        pool.execute(Box::new(move || {
            let n = t.fetch_add(1, Ordering::SeqCst);
            s.lock().unwrap().push((name, n));
        }));
    }
    assert!(stop(&mut pool));
    assert_eq!(*seen.lock().unwrap(), vec![("A", 0), ("B", 1)]);
}

#[test]
fn every_job_runs_exactly_once() {
    let mut pool = start(3).unwrap();
    let runs: Arc<Vec<AtomicUsize>> = Arc::new((0..50).map(|_| AtomicUsize::new(0)).collect());
    for i in 0..50 {
        let r = Arc::clone(&runs);
        assert!(pool.execute(Box::new(move || {
            r[i].fetch_add(1, Ordering::SeqCst);
        })));
    }
    assert!(stop(&mut pool));
    for r in runs.iter() {
        assert_eq!(r.load(Ordering::SeqCst), 1);
    }
}

#[test]
fn every_worker_stops_during_teardown() {
    let mut pool = start(4).unwrap();
    let stopped = AtomicUsize::new(0);
    assert!(pool.teardown(|h: Rx| {
        run_worker(h);
        stopped.fetch_add(1, Ordering::SeqCst);
    }));
    assert_eq!(stopped.load(Ordering::SeqCst), 4);
    for w in pool.workers().iter() {
        assert!(!w.has_thread());
    }
}

#[test]
fn send_after_every_worker_is_gone_is_refused() {
    let mut pool = start(2).unwrap();
    for w in pool.workers().iter() {
        assert!(w.has_thread());
    }
    assert!(stop(&mut pool));
    let ran = Arc::new(AtomicUsize::new(0));
    let r = Arc::clone(&ran);
    assert!(!pool.execute(Box::new(move || {
        r.fetch_add(1, Ordering::SeqCst);
    })));
    assert_eq!(ran.load(Ordering::SeqCst), 0);
}

#[test]
fn second_teardown_changes_nothing() {
    let mut pool: ThreadPool<Job, usize> = ThreadPool::new(2, |id: usize, _rx: Rx| id).unwrap();
    let joined = AtomicUsize::new(0);
    // every consumer end was dropped by `spawn`, so the queue refuses the stops
    assert!(!pool.teardown(|_h: usize| {
        joined.fetch_add(1, Ordering::SeqCst);
    }));
    assert_eq!(joined.load(Ordering::SeqCst), 2);
    assert!(pool.teardown(|_h: usize| {
        joined.fetch_add(1, Ordering::SeqCst);
    }));
    assert_eq!(joined.load(Ordering::SeqCst), 2);
    assert_eq!(pool.size_of(), 2);
    for w in pool.workers().iter() {
        assert!(!w.has_thread());
    }
}
