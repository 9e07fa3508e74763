//! The submission handle of a pool.

use vstd::prelude::*;

use crate::queue;
use crate::queue::QueueTx;

verus! {

/// What became of a submitted job.
#[derive(Clone, Copy, Debug, PartialEq, Eq, Structural)]
pub enum SendResult {
    /// The job was placed on the queue; some worker will run it.
    Queued,
    /// The queue was full, so the job already ran, synchronously, on the
    /// submitting caller's own worker state.
    Executed,
    /// Every receiving half of the queue is gone, so the job was discarded.
    /// This is a programming error in the caller: the queue closes only once
    /// no worker is left to drain it.
    Closed,
}

/// A handle to a pool's bounded job queue. It may be cloned freely and moved
/// into jobs, so that jobs submit further jobs; the queue closes once every
/// handle is dropped.
#[verifier::reject_recursive_types(W)]
pub struct Sender<W> {
    pub(crate) tx: QueueTx<W>,
    pub(crate) cap: usize,
}

impl<W> Sender<W> {
    /// The capacity of the queue this handle feeds, fixed when the queue was
    /// created: worker count times slots per worker.
    pub closed spec fn capacity(&self) -> usize {
        self.cap
    }

    /// Submit a job: a one-shot closure that will run exactly once, with
    /// exclusive use of some worker state.
    ///
    /// The job must be callable on every state, since any worker may run it
    /// at any later time. Submission never blocks and never discards a job
    /// while the pool is alive: if the queue is full, either on the check
    /// here or on the enqueue it races against, the job runs at once on the
    /// caller's own `worker` state, and `Executed` reports that its
    /// postcondition already holds of `worker`. On a queue with no capacity
    /// every submission runs this way. `Closed` reports a queue with no
    /// receivers left, a programming error; only then is a job discarded.
    pub fn send<F: FnOnce(&mut W) + Send + 'static>(&self, worker: &mut W, job: F) -> (r:
        SendResult)
        requires
            forall|m: &mut W| call_requires(job, (m,)),
        ensures
            r == SendResult::Executed ==> exists|m: &mut W|
                *m == *old(worker) && *final(m) == *final(worker) && call_ensures(
                    job,
                    (m,),
                    (),
                ),
            r != SendResult::Executed ==> *final(worker) == *old(worker),
            self.capacity() == 0 ==> r == SendResult::Executed,
    {
        if queue::sender_is_full(self) {
            job(worker);
            SendResult::Executed
        } else {
            queue::try_send_job(self, worker, job)
        }
    }

    /// A snapshot of the queue's full state, as a hint: callers may use it to
    /// run small work inline rather than pay for boxing a job. Other threads
    /// move the queue concurrently, so nothing is guaranteed of the snapshot,
    /// except that a queue with no capacity is always full.
    pub fn is_full(&self) -> (r: bool)
        ensures
            self.capacity() == 0 ==> r,
    {
        queue::sender_is_full(self)
    }
}

impl<W> Clone for Sender<W> {
    /// Another handle to the same queue.
    fn clone(&self) -> (r: Self)
        ensures
            r.capacity() == self.capacity(),
    {
        queue::clone_sender(self)
    }
}

} // verus!
