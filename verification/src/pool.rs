//! The workers' lifecycle and the scoped entry point that runs a whole
//! batch: spawn workers, seed the queue, drain it, fold the outputs.

use vstd::prelude::*;

use crate::options::Options;
use crate::queue;
use crate::queue::Receiver;
use crate::sender::Sender;

verus! {

/// Why running a pool of workers failed.
#[derive(Clone, Copy, Debug, PartialEq, Eq, Structural)]
pub enum PoolError {
    /// A worker thread panicked in its state factory, in a job, or in its
    /// destroy step. A panic is confined to its own worker: the others are
    /// still drained and waited for.
    WorkerPanicked,
}

/// The declared type of crossbeam's scope for spawning threads.
#[verifier::external_type_specification]
#[verifier::external_body]
pub struct ExScope<'env>(crossbeam::thread::Scope<'env>);

/// The declared type of crossbeam's handle to a thread spawned in a scope.
#[verifier::external_type_specification]
#[verifier::external_body]
#[verifier::reject_recursive_types(T)]
pub struct ExScopedJoinHandle<'scope, T>(crossbeam::thread::ScopedJoinHandle<'scope, T>);

/// A handle to one spawned worker thread. It records the worker's destroy
/// function, so that what `join` delivers can be tied to it.
#[verifier::reject_recursive_types(W)]
#[verifier::reject_recursive_types(X)]
#[verifier::reject_recursive_types(D)]
pub struct WorkerHandle<'scope, W, X, D> {
    inner: crossbeam::thread::ScopedJoinHandle<'scope, X>,
    destroy: D,
    state: core::marker::PhantomData<W>,
}

impl<'scope, W, X, D> WorkerHandle<'scope, W, X, D> {
    /// The destroy function of the worker this handle waits for.
    pub closed spec fn destroy_fn(&self) -> D {
        self.destroy
    }
}

/// One worker's whole life: build the state, drain the queue, tear down.
///
/// The state is created once from `param`, then each job received from the
/// queue runs with exclusive use of it, in the order this worker receives
/// them, until the queue is closed and drained; finally `destroy` turns the
/// state into the worker's output.
///
/// The drain loop carries a fuel counter so that its termination stands on a
/// provable measure; the bound is far beyond what any execution can reach.
pub fn worker_run<T, W, X, C: Fn(T) -> W, D: Fn(W) -> X>(
    rx: Receiver<W>,
    param: T,
    create: C,
    destroy: D,
) -> (x: X)
    requires
        call_requires(create, (param,)),
        forall|w: W| call_requires(destroy, (w,)),
    ensures
        exists|w: W| call_ensures(destroy, (w,), x),
{
    let mut state = create(param);
    let mut fuel: u64 = u64::MAX;
    while fuel > 0
        invariant
            forall|w: W| call_requires(destroy, (w,)),
        decreases fuel,
    {
        fuel = fuel - 1;
        match queue::recv_job(&rx) {
            Some(job) => queue::run_job(job, &mut state),
            None => { fuel = 0 },
        }
    }
    destroy(state)
}

/// Relies on crossbeam::scope: it calls `f` exactly once, with a scope in
/// which threads can be spawned, and does not return until every thread
/// spawned in the scope has terminated; it reports an error only when a
/// thread that was never joined panicked.
#[verifier::external_body]
fn enter_scope<'env, R, F: FnOnce(&crossbeam::thread::Scope<'env>) -> R>(f: F) -> (r: Result<
    R,
    PoolError,
>)
    requires
        forall|s: &crossbeam::thread::Scope<'env>| call_requires(f, (s,)),
    ensures
        r matches Ok(v) ==> exists|s: &crossbeam::thread::Scope<'env>| call_ensures(f, (s,), v),
{
    match crossbeam::scope(f) {
        Ok(v) => Ok(v),
        Err(_) => Err(PoolError::WorkerPanicked),
    }
}

/// Relies on crossbeam's Scope::spawn: it starts a thread in the scope and
/// hands back a join handle for it. The thread runs `worker_run`, a verified
/// function, so every output the handle can deliver satisfies `worker_run`'s
/// postcondition; `out_ok` records that.
#[verifier::external_body]
fn spawn_worker<'scope, 'env, T, W, X, C, D>(
    s: &'scope crossbeam::thread::Scope<'env>,
    rx: Receiver<W>,
    param: T,
    create: C,
    destroy: D,
) -> (h: WorkerHandle<'scope, W, X, D>) where
    T: Send + 'env,
    W: 'env,
    X: Send + 'env,
    C: Fn(T) -> W + Send + Copy + 'env,
    D: Fn(W) -> X + Send + Copy + 'env,

    requires
        call_requires(create, (param,)),
        forall|w: W| call_requires(destroy, (w,)),
    ensures
        h.destroy_fn() == destroy,
{
    WorkerHandle {
        inner: s.spawn(move |_| worker_run(rx, param, create, destroy)),
        destroy,
        state: core::marker::PhantomData,
    }
}

/// Relies on crossbeam's ScopedJoinHandle::join: it blocks until the worker
/// thread ends, handing back the thread's return value, or an error when the
/// thread panicked. The thread behind the handle computes `worker_run` of
/// the recorded destroy function (see `spawn_worker`), whose postcondition
/// therefore holds of the value handed back.
#[verifier::external_body]
fn join_worker<'scope, W, X, D: Fn(W) -> X>(h: WorkerHandle<'scope, W, X, D>) -> (r: Result<
    X,
    PoolError,
>)
    ensures
        r matches Ok(x) ==> exists|w: W| call_ensures(h.destroy_fn(), (w,), x),
{
    match h.inner.join() {
        Ok(x) => Ok(x),
        Err(_) => Err(PoolError::WorkerPanicked),
    }
}

/// Whether `r` can come out of folding the worker outputs `ys`, in order,
/// into `acc` with the combining function `m`, where each of the outputs is
/// a possible value of the destroy function `d`.
pub open spec fn folds_outputs<W, X, Y, D: Fn(W) -> Y, M: Fn(X, Y) -> X>(
    d: D,
    m: M,
    acc: X,
    ys: Seq<Y>,
    r: X,
) -> bool
    decreases ys.len(),
{
    if ys.len() == 0 {
        r == acc
    } else {
        exists|w: W, mid: X|
            #![trigger call_ensures(d, (w,), ys[0]), call_ensures(m, (acc, ys[0]), mid)]
            call_ensures(d, (w,), ys[0]) && call_ensures(m, (acc, ys[0]), mid) && folds_outputs(
                d,
                m,
                mid,
                ys.skip(1),
                r,
            )
    }
}

/// Folding one more worker output behind a finished fold is a fold of the
/// longer sequence.
proof fn lemma_folds_outputs_snoc<W, X, Y, D: Fn(W) -> Y, M: Fn(X, Y) -> X>(
    d: D,
    m: M,
    acc: X,
    ys: Seq<Y>,
    mid: X,
    w: W,
    y: Y,
    r: X,
)
    requires
        folds_outputs(d, m, acc, ys, mid),
        call_ensures(d, (w,), y),
        call_ensures(m, (mid, y), r),
    ensures
        folds_outputs(d, m, acc, ys.push(y), r),
    decreases ys.len(),
{
    if ys.len() == 0 {
        assert(ys.push(y)[0] == y);
        assert(ys.push(y).skip(1) =~= Seq::<Y>::empty());
        assert(folds_outputs(d, m, r, ys.push(y).skip(1), r));
    } else {
        let (w1, mid1) = choose|w1: W, mid1: X|
            #![trigger call_ensures(d, (w1,), ys[0]), call_ensures(m, (acc, ys[0]), mid1)]
            call_ensures(d, (w1,), ys[0]) && call_ensures(m, (acc, ys[0]), mid1) && folds_outputs(
                d,
                m,
                mid1,
                ys.skip(1),
                mid,
            );
        lemma_folds_outputs_snoc(d, m, mid1, ys.skip(1), mid, w, y, r);
        assert(ys.push(y)[0] == ys[0]);
        assert(ys.push(y).skip(1) =~= ys.skip(1).push(y));
    }
}

/// What is known of a value `execute` returns: some seeding of the queue
/// produced the initial accumulator `x0`; each of the effective workers
/// delivered an output of its destroy function; and `v` is those outputs, in
/// spawn order, folded into `x0`.
pub open spec fn execute_outcome<W, Y, X, D, I, M>(
    options: Options,
    parallelism: usize,
    destroy: D,
    init: I,
    combine: M,
    v: X,
) -> bool where D: Fn(W) -> Y, I: FnOnce(&Sender<W>) -> X, M: Fn(X, Y) -> X {
    exists|x0: X, ys: Seq<Y>|
        #![trigger folds_outputs(destroy, combine, x0, ys, v)]
        {
            &&& folds_outputs(destroy, combine, x0, ys, v)
            &&& exists|s: &Sender<W>|
                (#[trigger] call_ensures(init, (s,), x0)) && s.capacity()
                    == options.effective_threads(parallelism) * options.slots
            &&& ys.len() == options.effective_threads(parallelism)
        }
}

/// Run one batch of jobs in a scoped pool and fold the workers' outputs
/// into one result.
///
/// The effective worker count is computed from `options` and the probed
/// `parallelism`; the queue gets `count * slots` capacity. The workers are
/// started first, each with a state built by `create` from its 1-based
/// ordinal. Then `init` runs on the calling thread to seed the queue and
/// produce the initial accumulator; submissions that overflow the queue run
/// synchronously inside `init` itself. When `init` is done the pool's own
/// queue handle is dropped, so the workers finish once the handles captured
/// by still-queued jobs are gone too; every worker has terminated before
/// this function returns. Finally each worker's destroyed output is folded
/// into the accumulator with `combine`, in spawn order.
///
/// An error reports a panicked worker; the rest were still drained and
/// waited for.
pub fn execute<'env, W, Y, X, C, D, I, M>(
    options: Options,
    parallelism: usize,
    create: C,
    destroy: D,
    init: I,
    combine: M,
) -> (r: Result<X, PoolError>) where
    W: 'env,
    Y: Send + 'env,
    C: Fn(usize) -> W + Send + Copy + 'env,
    D: Fn(W) -> Y + Send + Copy + 'env,
    I: FnOnce(&Sender<W>) -> X,
    M: Fn(X, Y) -> X,

    requires
        options.effective_threads(parallelism) <= usize::MAX,
        options.effective_threads(parallelism) * options.slots <= usize::MAX,
        forall|t: usize|
            1 <= t <= options.effective_threads(parallelism) ==> call_requires(create, (t,)),
        forall|w: W| call_requires(destroy, (w,)),
        forall|s: &Sender<W>|
            s.capacity() == options.effective_threads(parallelism) * options.slots
                ==> call_requires(init, (s,)),
        forall|x: X, y: Y| call_requires(combine, (x, y)),
    ensures
        r matches Ok(v) ==> execute_outcome(options, parallelism, destroy, init, combine, v),
{
    let threads = options.get_threads(parallelism);
    let (sender, receiver) = queue::open_queue::<W>(&options, parallelism);
    let ghost g_threads = threads;
    let task = (move |s: &crossbeam::thread::Scope<'env>| -> (out: Result<X, PoolError>)
        ensures
            out matches Ok(v) ==> execute_outcome(
                options,
                parallelism,
                destroy,
                init,
                combine,
                v,
            ),
        {
            let mut handles: Vec<WorkerHandle<W, Y, D>> = Vec::new();
            let mut i: usize = 0;
            while i < threads
                invariant
                    i <= threads,
                    handles@.len() == i,
                    threads == g_threads,
                    g_threads == options.effective_threads(parallelism),
                    forall|t: usize| 1 <= t <= g_threads ==> call_requires(create, (t,)),
                    forall|w: W| call_requires(destroy, (w,)),
                    forall|k: int|
                        0 <= k < handles@.len() ==> (#[trigger] handles@[k]).destroy_fn()
                            == destroy,
                decreases threads - i,
            {
                let rx = receiver.clone();
                handles.push(spawn_worker(s, rx, i + 1, create, destroy));
                i += 1;
            }
            let acc0 = init(&sender);
            proof {
                assert(call_ensures(init, (&sender,), acc0));
            }
            queue::drop_sender(sender);
            let ghost x0 = acc0;
            let ghost mut ys: Seq<Y> = Seq::empty();
            let mut acc = acc0;
            while handles.len() > 0
                invariant
                    g_threads == options.effective_threads(parallelism),
                    forall|x: X, y: Y| call_requires(combine, (x, y)),
                    forall|k: int|
                        0 <= k < handles@.len() ==> (#[trigger] handles@[k]).destroy_fn()
                            == destroy,
                    ys.len() + handles@.len() == g_threads,
                    folds_outputs(destroy, combine, x0, ys, acc),
                    exists|s: &Sender<W>|
                        (#[trigger] call_ensures(init, (s,), x0)) && s.capacity()
                            == options.effective_threads(parallelism) * options.slots,
                decreases handles.len(),
            {
                let h = handles.remove(0);
                match join_worker(h) {
                    Ok(y) => {
                        let acc2 = combine(acc, y);
                        proof {
                            let ghost w = choose|w: W| call_ensures(destroy, (w,), y);
                            lemma_folds_outputs_snoc(destroy, combine, x0, ys, acc, w, y, acc2);
                            ys = ys.push(y);
                        }
                        acc = acc2;
                    },
                    Err(e) => {
                        return Err(e);
                    },
                }
            }
            proof {
                assert(folds_outputs(destroy, combine, x0, ys, acc));
                assert(execute_outcome(options, parallelism, destroy, init, combine, acc));
            }
            Ok(acc)
        });
    match enter_scope(task) {
        Ok(Ok(v)) => Ok(v),
        Ok(Err(e)) => Err(e),
        Err(e) => Err(e),
    }
}

/// A property that the seed result has, and that combining in any possible
/// worker output preserves, holds of the folded result.
pub proof fn lemma_folds_outputs_preserves<W, X, Y, D: Fn(W) -> Y, M: Fn(X, Y) -> X>(
    d: D,
    m: M,
    acc: X,
    ys: Seq<Y>,
    r: X,
    q: spec_fn(X) -> bool,
)
    requires
        folds_outputs(d, m, acc, ys, r),
        q(acc),
        forall|x: X, w: W, y: Y, x2: X|
            #![trigger call_ensures(d, (w,), y), call_ensures(m, (x, y), x2)]
            q(x) && call_ensures(d, (w,), y) && call_ensures(m, (x, y), x2) ==> q(x2),
    ensures
        q(r),
    decreases ys.len(),
{
    if ys.len() > 0 {
        let (w1, mid1) = choose|w1: W, mid1: X|
            #![trigger call_ensures(d, (w1,), ys[0]), call_ensures(m, (acc, ys[0]), mid1)]
            call_ensures(d, (w1,), ys[0]) && call_ensures(m, (acc, ys[0]), mid1) && folds_outputs(
                d,
                m,
                mid1,
                ys.skip(1),
                r,
            );
        lemma_folds_outputs_preserves(d, m, mid1, ys.skip(1), r, q);
    }
}

/// With an effective worker count of 0, a batch's result is exactly what the
/// seeding step produced: there are no worker outputs to fold, and every job
/// submitted inside `init` already ran synchronously on its submitter, since
/// the queue it fed had no capacity.
pub proof fn lemma_execute_degenerate<W, Y, X, D, I, M>(
    options: Options,
    parallelism: usize,
    destroy: D,
    init: I,
    combine: M,
    v: X,
) where D: Fn(W) -> Y, I: FnOnce(&Sender<W>) -> X, M: Fn(X, Y) -> X
    requires
        options.effective_threads(parallelism) == 0,
        execute_outcome(options, parallelism, destroy, init, combine, v),
    ensures
        exists|s: &Sender<W>| (#[trigger] call_ensures(init, (s,), v)) && s.capacity() == 0,
{
    let (x0, ys) = choose|x0: X, ys: Seq<Y>|
        #![trigger folds_outputs(destroy, combine, x0, ys, v)]
        {
            &&& folds_outputs(destroy, combine, x0, ys, v)
            &&& exists|s: &Sender<W>|
                (#[trigger] call_ensures(init, (s,), x0)) && s.capacity()
                    == options.effective_threads(parallelism) * options.slots
            &&& ys.len() == options.effective_threads(parallelism)
        };
    assert(ys.len() == 0);
    assert(v == x0);
}

} // verus!
