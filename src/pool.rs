use std::collections::VecDeque;
use vstd::prelude::*;

verus! {

/// Where a worker stands in its life.
#[derive(Clone, Copy, Debug, PartialEq, Eq, Structural)]
pub enum WorkerState {
    /// Blocked on the work queue, waiting for a job or for closure.
    Waiting,
    /// Running the last job it received.
    Executing,
    /// Saw the queue closed and drained; its thread has returned.
    Terminated,
    /// Its thread has been joined during teardown.
    Joined,
}

/// The errors the pool reports to its callers.
#[derive(Clone, Copy, Debug, PartialEq, Eq, Structural)]
pub enum PoolError {
    /// A pool of zero workers was requested.
    InvalidConfiguration,
    /// A job was submitted after shutdown began.
    PoolClosed,
    /// A worker could not be joined during teardown.
    TeardownFailure,
}

/// What a worker is told to do next.
#[derive(Debug)]
pub enum Action<T> {
    /// Run this job, then ask again.
    Run(T),
    /// Block until a job is submitted or the pool closes, then ask again.
    Wait,
    /// Leave the loop: the queue is closed and drained.
    Exit,
}

/// The abstract state of a pool.
pub ghost struct PoolView<T> {
    /// Whether submissions are still accepted.
    pub open: bool,
    /// The state of each worker, indexed by its ordinal id.
    pub workers: Seq<WorkerState>,
    /// Every job accepted so far, in the order of acceptance.
    pub accepted: Seq<T>,
    /// `handed_to[k]` is the worker that received `accepted[k]`.
    pub handed_to: Seq<nat>,
}

/// A worker that no longer takes work.
pub open spec fn stopped(s: WorkerState) -> bool {
    s == WorkerState::Terminated || s == WorkerState::Joined
}

/// A worker whose thread is still running.
pub open spec fn alive(s: WorkerState) -> bool {
    s == WorkerState::Waiting || s == WorkerState::Executing
}

impl<T> PoolView<T> {
    /// The number of jobs handed to workers so far.
    pub open spec fn delivered(self) -> nat {
        self.handed_to.len()
    }

    /// The jobs accepted but not yet handed to a worker, oldest first.
    pub open spec fn pending(self) -> Seq<T> {
        self.accepted.subrange(self.delivered() as int, self.accepted.len() as int)
    }

    /// The invariant of every reachable pool state.
    pub open spec fn inv(self) -> bool {
        &&& self.workers.len() >= 1
        &&& self.delivered() <= self.accepted.len()
        &&& forall|k: int| 0 <= k < self.handed_to.len() ==> self.handed_to[k] < self.workers.len()
        &&& forall|i: int|
            0 <= i < self.workers.len() && stopped(#[trigger] self.workers[i]) ==> !self.open
                && self.delivered() == self.accepted.len()
    }

    /// Teardown is complete: closed, and every worker joined.
    pub open spec fn is_shut_down(self) -> bool {
        &&& !self.open
        &&& forall|i: int| 0 <= i < self.workers.len() ==> #[trigger] self.workers[i] == WorkerState::Joined
    }
}

/// A freshly created pool of `n` workers.
pub open spec fn created<T>(n: nat) -> PoolView<T> {
    PoolView {
        open: true,
        workers: Seq::new(n, |i: int| WorkerState::Waiting),
        accepted: Seq::empty(),
        handed_to: Seq::empty(),
    }
}

/// The state after submitting `job`: accepted while open, ignored once closed.
pub open spec fn submitted<T>(v: PoolView<T>, job: T) -> PoolView<T> {
    if v.open {
        PoolView { accepted: v.accepted.push(job), ..v }
    } else {
        v
    }
}

/// What worker `w` is told when it asks for work.
pub open spec fn next_action<T>(v: PoolView<T>, w: nat) -> Action<T> {
    if stopped(v.workers[w as int]) {
        Action::Exit
    } else if v.delivered() < v.accepted.len() {
        Action::Run(v.accepted[v.delivered() as int])
    } else if v.open {
        Action::Wait
    } else {
        Action::Exit
    }
}

/// The state after worker `w` asks for work.
pub open spec fn after_next<T>(v: PoolView<T>, w: nat) -> PoolView<T> {
    if stopped(v.workers[w as int]) {
        v
    } else if v.delivered() < v.accepted.len() {
        PoolView {
            workers: v.workers.update(w as int, WorkerState::Executing),
            handed_to: v.handed_to.push(w),
            ..v
        }
    } else if v.open {
        PoolView { workers: v.workers.update(w as int, WorkerState::Waiting), ..v }
    } else {
        PoolView { workers: v.workers.update(w as int, WorkerState::Terminated), ..v }
    }
}

/// The state after shutdown begins.
pub open spec fn closed<T>(v: PoolView<T>) -> PoolView<T> {
    PoolView { open: false, ..v }
}

/// Whether worker `w` can be joined: its thread has returned.
pub open spec fn joinable<T>(v: PoolView<T>, w: nat) -> bool {
    v.workers[w as int] == WorkerState::Terminated
}

/// The state after joining worker `w`.
pub open spec fn after_join<T>(v: PoolView<T>, w: nat) -> PoolView<T> {
    if joinable(v, w) {
        PoolView { workers: v.workers.update(w as int, WorkerState::Joined), ..v }
    } else {
        v
    }
}

/// The decisions of a worker pool: the work queue, the state of each worker
/// and the lifecycle of the pool. Threads and locking are left to the caller,
/// which holds this value under one lock.
pub struct PoolCore<T> {
    queue: VecDeque<T>,
    open: bool,
    workers: Vec<WorkerState>,
    accepted: Ghost<Seq<T>>,
    handed_to: Ghost<Seq<nat>>,
}

impl<T> View for PoolCore<T> {
    type V = PoolView<T>;

    closed spec fn view(&self) -> PoolView<T> {
        PoolView {
            open: self.open,
            workers: self.workers@,
            accepted: self.accepted@,
            handed_to: self.handed_to@,
        }
    }
}

impl<T> PoolCore<T> {
    /// The queue holds exactly the jobs not yet handed out, and the state is reachable.
    pub closed spec fn wf(&self) -> bool {
        &&& self@.inv()
        &&& self.queue@ == self@.pending()
    }

    /// A well-formed pool is in a reachable state.
    pub proof fn lemma_wf_reachable(&self)
        requires
            self.wf(),
        ensures
            self@.inv(),
    {
    }

    /// Creates a pool of `size` workers, all waiting, with ids `0..size`.
    pub fn create(size: usize) -> (r: Result<PoolCore<T>, PoolError>)
        ensures
            size == 0 <==> r is Err,
            r is Err ==> r == Err::<PoolCore<T>, PoolError>(PoolError::InvalidConfiguration),
            r matches Ok(p) ==> p.wf() && p@ == created::<T>(size as nat),
    {
        if size == 0 {
            return Err(PoolError::InvalidConfiguration);
        }
        let mut workers: Vec<WorkerState> = Vec::with_capacity(size);
        let mut i: usize = 0;
        while i < size
            invariant
                i <= size,
                workers@ == Seq::new(i as nat, |j: int| WorkerState::Waiting),
            decreases size - i,
        {
            workers.push(WorkerState::Waiting);
            i = i + 1;
            assert(workers@ =~= Seq::new(i as nat, |j: int| WorkerState::Waiting));
        }
        let p = PoolCore {
            queue: VecDeque::new(),
            open: true,
            workers,
            accepted: Ghost(Seq::empty()),
            handed_to: Ghost(Seq::empty()),
        };
        assert(p@ =~= created::<T>(size as nat));
        assert(p.queue@ =~= p@.pending());
        Ok(p)
    }

    /// Hands `job` to the queue while the pool is open; once shutdown has
    /// begun the job is handed back untouched.
    pub fn submit(&mut self, job: T) -> (r: Result<(), T>)
        requires
            old(self).wf(),
        ensures
            final(self).wf(),
            final(self)@ == submitted(old(self)@, job),
            r is Ok <==> old(self)@.open,
            r matches Err(j) ==> j == job,
    {
        if self.open {
            self.queue.push_back(job);
            self.accepted = Ghost(self.accepted@.push(job));
            assert(self.queue@ =~= self@.pending());
            Ok(())
        } else {
            Err(job)
        }
    }

    /// Decides what worker `worker` does next, having finished any job it ran:
    /// take the oldest pending job, wait while the pool is open, or exit once
    /// the pool is closed and the queue drained.
    pub fn next(&mut self, worker: usize) -> (r: Action<T>)
        requires
            old(self).wf(),
            worker < old(self)@.workers.len(),
        ensures
            final(self).wf(),
            r == next_action(old(self)@, worker as nat),
            final(self)@ == after_next(old(self)@, worker as nat),
    {
        let s = self.workers[worker];
        if s == WorkerState::Terminated || s == WorkerState::Joined {
            return Action::Exit;
        }
        match self.queue.pop_front() {
            Some(job) => {
                self.workers.set(worker, WorkerState::Executing);
                self.handed_to = Ghost(self.handed_to@.push(worker as nat));
                assert(self.queue@ =~= self@.pending());
                Action::Run(job)
            },
            None => {
                assert(self@.pending().len() == 0);
                if self.open {
                    self.workers.set(worker, WorkerState::Waiting);
                    Action::Wait
                } else {
                    self.workers.set(worker, WorkerState::Terminated);
                    Action::Exit
                }
            },
        }
    }

    /// Begins shutdown: later submissions are refused, and workers exit once
    /// the queue is drained.
    pub fn close(&mut self)
        requires
            old(self).wf(),
        ensures
            final(self).wf(),
            final(self)@ == closed(old(self)@),
    {
        self.open = false;
    }

    /// Records that worker `worker` has been joined; refused unless its thread
    /// had returned and it was not joined before.
    pub fn join(&mut self, worker: usize) -> (r: Result<(), PoolError>)
        requires
            old(self).wf(),
            worker < old(self)@.workers.len(),
        ensures
            final(self).wf(),
            final(self)@ == after_join(old(self)@, worker as nat),
            r is Ok <==> joinable(old(self)@, worker as nat),
            r is Err ==> r == Err::<(), PoolError>(PoolError::TeardownFailure),
    {
        if self.workers[worker] == WorkerState::Terminated {
            self.workers.set(worker, WorkerState::Joined);
            Ok(())
        } else {
            Err(PoolError::TeardownFailure)
        }
    }

    /// The number of workers.
    pub fn worker_count(&self) -> (r: usize)
        requires
            self.wf(),
        ensures
            r == self@.workers.len(),
    {
        self.workers.len()
    }

    /// The state of worker `worker`.
    pub fn worker_state(&self, worker: usize) -> (r: WorkerState)
        requires
            worker < self@.workers.len(),
        ensures
            r == self@.workers[worker as int],
    {
        self.workers[worker]
    }

    /// Whether submissions are accepted.
    pub fn is_open(&self) -> (r: bool)
        ensures
            r == self@.open,
    {
        self.open
    }

    /// The number of jobs accepted and not yet handed to a worker.
    pub fn pending_count(&self) -> (r: usize)
        requires
            self.wf(),
        ensures
            r == self@.pending().len(),
    {
        self.queue.len()
    }

    /// Whether teardown is complete: closed, with every worker joined.
    pub fn is_shut_down(&self) -> (r: bool)
        requires
            self.wf(),
        ensures
            r == self@.is_shut_down(),
    {
        if self.open {
            return false;
        }
        let mut i: usize = 0;
        while i < self.workers.len()
            invariant
                i <= self.workers@.len(),
                forall|j: int| 0 <= j < i ==> self.workers@[j] == WorkerState::Joined,
            decreases self.workers@.len() - i,
        {
            if self.workers[i] != WorkerState::Joined {
                return false;
            }
            i = i + 1;
        }
        true
    }
}

} // verus!
