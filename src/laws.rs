use vstd::prelude::*;
use crate::pool::{
    after_join, after_next, alive, closed, created, next_action, stopped, submitted, Action,
    PoolView, WorkerState,
};

verus! {

/// One thing that can happen to a pool.
pub ghost enum Event<T> {
    /// A submitter hands in a job.
    Submit(T),
    /// The worker with this id asks for work.
    Next(nat),
    /// Shutdown begins.
    Close,
    /// The worker with this id is joined.
    Join(nat),
}

/// The state after one event; an event naming no worker of the pool changes nothing.
pub open spec fn step<T>(v: PoolView<T>, e: Event<T>) -> PoolView<T> {
    match e {
        Event::Submit(job) => submitted(v, job),
        Event::Next(w) => if w < v.workers.len() {
            after_next(v, w)
        } else {
            v
        },
        Event::Close => closed(v),
        Event::Join(w) => if w < v.workers.len() {
            after_join(v, w)
        } else {
            v
        },
    }
}

/// The state after a sequence of events, taken in order.
pub open spec fn run<T>(v: PoolView<T>, es: Seq<Event<T>>) -> PoolView<T>
    decreases es.len(),
{
    if es.len() == 0 {
        v
    } else {
        run(step(v, es[0]), es.drop_first())
    }
}

proof fn lemma_step<T>(v: PoolView<T>, e: Event<T>)
    requires
        v.inv(),
    ensures
        step(v, e).inv(),
        step(v, e).workers.len() == v.workers.len(),
        v.accepted.is_prefix_of(step(v, e).accepted),
        v.handed_to.is_prefix_of(step(v, e).handed_to),
{
    let s = step(v, e);
    assert(v.accepted.is_prefix_of(s.accepted) && v.handed_to.is_prefix_of(s.handed_to)) by {
        assert(v.accepted =~= s.accepted.subrange(0, v.accepted.len() as int));
        assert(v.handed_to =~= s.handed_to.subrange(0, v.handed_to.len() as int));
    }
}

/// Every sequence of events keeps a pool reachable and its history intact:
/// accepted jobs are never withdrawn, and once the `k`-th accepted job has
/// been handed to a worker it is never handed out again or reassigned. So
/// each accepted job runs on exactly one worker, at most once.
pub proof fn lemma_history_is_permanent<T>(v: PoolView<T>, es: Seq<Event<T>>)
    requires
        v.inv(),
    ensures
        run(v, es).inv(),
        run(v, es).workers.len() == v.workers.len(),
        v.accepted.is_prefix_of(run(v, es).accepted),
        v.handed_to.is_prefix_of(run(v, es).handed_to),
    decreases es.len(),
{
    if es.len() > 0 {
        let s = step(v, es[0]);
        lemma_step(v, es[0]);
        lemma_history_is_permanent(s, es.drop_first());
        let r = run(v, es);
        assert(v.accepted =~= r.accepted.subrange(0, v.accepted.len() as int)) by {
            assert(s.accepted =~= r.accepted.subrange(0, s.accepted.len() as int));
            assert(v.accepted =~= s.accepted.subrange(0, v.accepted.len() as int));
        }
        assert(v.handed_to =~= r.handed_to.subrange(0, v.handed_to.len() as int)) by {
            assert(s.handed_to =~= r.handed_to.subrange(0, s.handed_to.len() as int));
            assert(v.handed_to =~= s.handed_to.subrange(0, v.handed_to.len() as int));
        }
    }
}

/// Teardown completes only after every accepted job was handed to a worker
/// and has finished: no worker is still executing.
pub proof fn lemma_shut_down_ran_every_job<T>(v: PoolView<T>)
    requires
        v.inv(),
        v.is_shut_down(),
    ensures
        v.delivered() == v.accepted.len(),
        v.pending().len() == 0,
        forall|i: int| 0 <= i < v.workers.len() ==> #[trigger] v.workers[i] != WorkerState::Executing,
{
    assert(v.workers[0] == WorkerState::Joined);
    assert(stopped(v.workers[0]));
}

/// Once shutdown has begun, no sequence of events reopens the pool or gets
/// another job accepted: every later submission is refused.
pub proof fn lemma_closed_pool_accepts_nothing<T>(v: PoolView<T>, es: Seq<Event<T>>)
    requires
        !v.open,
    ensures
        !run(v, es).open,
        run(v, es).accepted == v.accepted,
    decreases es.len(),
{
    if es.len() > 0 {
        lemma_closed_pool_accepts_nothing(step(v, es[0]), es.drop_first());
    }
}

/// After teardown no worker thread is alive.
pub proof fn lemma_shut_down_leaves_no_live_worker<T>(v: PoolView<T>)
    requires
        v.is_shut_down(),
    ensures
        forall|i: int| 0 <= i < v.workers.len() ==> !alive(#[trigger] v.workers[i]),
{
    assert forall|i: int| 0 <= i < v.workers.len() implies !alive(#[trigger] v.workers[i]) by {
        assert(v.workers[i] == WorkerState::Joined);
    }
}

/// A pool of `n >= 1` workers starts with exactly `n` live workers, open and
/// with nothing queued, in a reachable state.
pub proof fn lemma_created_pool<T>(n: nat)
    requires
        n >= 1,
    ensures
        created::<T>(n).inv(),
        created::<T>(n).workers.len() == n,
        created::<T>(n).open,
        forall|i: int| 0 <= i < n ==> alive(#[trigger] created::<T>(n).workers[i]),
{
}

/// Jobs from one submitter, taken by one worker, run in the order submitted.
pub proof fn lemma_single_worker_fifo<T>(v: PoolView<T>, w: nat, j1: T, j2: T, j3: T)
    requires
        v.inv(),
        v.open,
        v.pending().len() == 0,
        w < v.workers.len(),
        !stopped(v.workers[w as int]),
    ensures
        ({
            let s = submitted(submitted(submitted(v, j1), j2), j3);
            let a = after_next(s, w);
            let b = after_next(a, w);
            &&& next_action(s, w) == Action::Run(j1)
            &&& next_action(a, w) == Action::Run(j2)
            &&& next_action(b, w) == Action::Run(j3)
        }),
{
    let s = submitted(submitted(submitted(v, j1), j2), j3);
    assert(v.delivered() == v.accepted.len());
    assert(s.accepted[v.delivered() as int] == j1);
    assert(s.accepted[v.delivered() as int + 1] == j2);
    assert(s.accepted[v.delivered() as int + 2] == j3);
}

/// Whatever happens to a fresh pool of `n` workers, once teardown completes
/// every accepted job was handed to exactly one worker, in the order of
/// acceptance, and has finished.
pub proof fn lemma_every_accepted_job_runs_once<T>(n: nat, es: Seq<Event<T>>)
    requires
        n >= 1,
        run(created::<T>(n), es).is_shut_down(),
    ensures
        ({
            let r = run(created::<T>(n), es);
            &&& r.handed_to.len() == r.accepted.len()
            &&& forall|k: int| 0 <= k < r.handed_to.len() ==> #[trigger] r.handed_to[k] < n
            &&& forall|i: int| 0 <= i < n ==> #[trigger] r.workers[i] != WorkerState::Executing
        }),
{
    lemma_created_pool::<T>(n);
    lemma_history_is_permanent(created::<T>(n), es);
    lemma_shut_down_ran_every_job(run(created::<T>(n), es));
}

} // verus!
