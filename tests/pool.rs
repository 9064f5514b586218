use hellorust::pool::{Action, PoolCore, PoolError, WorkerState};
use std::cell::RefCell;
use std::rc::Rc;
use std::time::{Duration, Instant};

type Job = Box<dyn FnOnce()>;

/// Runs the worker's next job if it has one; returns what it was told.
fn drive(pool: &mut PoolCore<Job>, worker: usize) -> &'static str {
    match pool.next(worker) {
        Action::Run(job) => {
            job();
            "run"
        }
        Action::Wait => "wait",
        Action::Exit => "exit",
    }
}

fn pause(d: Duration) {
    let start = Instant::now();
    while start.elapsed() < d {}
}

#[test]
fn create_zero_is_invalid_configuration() {
    let r = PoolCore::<u32>::create(0);
    assert!(matches!(r, Err(PoolError::InvalidConfiguration)));
}

#[test]
fn create_yields_exactly_n_waiting_workers() {
    for n in 1..6usize {
        let p = PoolCore::<u32>::create(n).unwrap();
        assert_eq!(p.worker_count(), n);
        assert!(p.is_open());
        assert_eq!(p.pending_count(), 0);
        for i in 0..n {
            assert_eq!(p.worker_state(i), WorkerState::Waiting);
        }
        assert!(!p.is_shut_down());
    }
}

#[test]
fn two_workers_run_four_jobs_exactly_once() {
    let log: Rc<RefCell<Vec<usize>>> = Rc::new(RefCell::new(Vec::new()));
    let mut p = PoolCore::<Job>::create(2).unwrap();
    for i in 0..4usize {
        let log = Rc::clone(&log);
        assert!(p.submit(Box::new(move || log.borrow_mut().push(i))).is_ok());
    }
    p.close();
    let mut exited = [false, false];
    while !(exited[0] && exited[1]) {
        for w in 0..2usize {
            if !exited[w] && drive(&mut p, w) == "exit" {
                exited[w] = true;
            }
        }
    }
    assert!(p.join(0).is_ok());
    assert!(p.join(1).is_ok());
    assert!(p.is_shut_down());
    let mut seen = log.borrow().clone();
    seen.sort();
    assert_eq!(seen, vec![0, 1, 2, 3]);
}

#[test]
fn single_worker_serialises_two_sleeping_jobs() {
    let counter = Rc::new(RefCell::new(0u32));
    let mut p = PoolCore::<Job>::create(1).unwrap();
    let start = Instant::now();
    for _ in 0..2 {
        let c = Rc::clone(&counter);
        let job: Job = Box::new(move || {
            pause(Duration::from_millis(50));
            *c.borrow_mut() += 1;
        });
        assert!(p.submit(job).is_ok());
    }
    assert_eq!(p.worker_count(), 1);
    assert_eq!(drive(&mut p, 0), "run");
    assert_eq!(p.pending_count(), 1);
    assert_eq!(drive(&mut p, 0), "run");
    assert!(start.elapsed() >= Duration::from_millis(100));
    assert_eq!(*counter.borrow(), 2);
}

#[test]
fn submit_after_close_hands_the_job_back() {
    let mut p = PoolCore::<u32>::create(2).unwrap();
    assert!(p.submit(1).is_ok());
    p.close();
    assert!(!p.is_open());
    assert_eq!(p.submit(7), Err(7));
    assert_eq!(p.pending_count(), 1);
    assert!(matches!(p.next(0), Action::Run(1)));
    assert!(matches!(p.next(0), Action::Exit));
}

#[test]
fn single_submitter_single_worker_is_fifo() {
    let mut p = PoolCore::<u32>::create(1).unwrap();
    assert!(p.submit(1).is_ok());
    assert!(p.submit(2).is_ok());
    assert!(p.submit(3).is_ok());
    assert!(matches!(p.next(0), Action::Run(1)));
    assert_eq!(p.worker_state(0), WorkerState::Executing);
    assert!(matches!(p.next(0), Action::Run(2)));
    assert!(matches!(p.next(0), Action::Run(3)));
    assert!(matches!(p.next(0), Action::Wait));
    assert_eq!(p.worker_state(0), WorkerState::Waiting);
}

#[test]
fn open_empty_pool_tells_workers_to_wait() {
    let mut p = PoolCore::<u32>::create(3).unwrap();
    assert!(matches!(p.next(2), Action::Wait));
    assert!(p.submit(9).is_ok());
    assert!(matches!(p.next(1), Action::Run(9)));
    assert!(matches!(p.next(2), Action::Wait));
}

#[test]
fn queued_jobs_still_run_after_close() {
    let mut p = PoolCore::<u32>::create(1).unwrap();
    assert!(p.submit(4).is_ok());
    assert!(p.submit(5).is_ok());
    p.close();
    assert!(matches!(p.next(0), Action::Run(4)));
    assert!(matches!(p.next(0), Action::Run(5)));
    assert!(matches!(p.next(0), Action::Exit));
    assert_eq!(p.worker_state(0), WorkerState::Terminated);
    assert!(matches!(p.next(0), Action::Exit));
}

#[test]
fn join_needs_a_terminated_worker_and_happens_once() {
    let mut p = PoolCore::<u32>::create(2).unwrap();
    assert_eq!(p.join(0), Err(PoolError::TeardownFailure));
    p.close();
    assert_eq!(p.join(0), Err(PoolError::TeardownFailure));
    assert!(matches!(p.next(0), Action::Exit));
    assert_eq!(p.join(0), Ok(()));
    assert_eq!(p.worker_state(0), WorkerState::Joined);
    assert_eq!(p.join(0), Err(PoolError::TeardownFailure));
    assert!(!p.is_shut_down());
    assert!(matches!(p.next(1), Action::Exit));
    assert_eq!(p.join(1), Ok(()));
    assert!(p.is_shut_down());
}
