//! The trusted boundary around the bounded multi-producer/multi-consumer
//! queue of jobs, which crossbeam's channel provides.
//!
//! Everything the library states about the queue is stated here, on small
//! wrappers. The queue itself is shared between threads, so what it holds at
//! any instant is not a function of a handle's value: the wrappers promise
//! only what holds of every outcome of a call, plus the one per-channel
//! constant, the capacity, which `queue_pair` records in the handles it
//! builds. Every handle in the crate comes from `queue_pair` or from the
//! clone wrappers, so a handle's recorded capacity is the capacity its
//! channel was created with.

use vstd::prelude::*;

use crate::options::Options;
use crate::sender::{SendResult, Sender};

verus! {

/// A queued job: an owning, one-shot callable on a worker state, boxed so it
/// can travel through the channel. The box holds a `dyn FnOnce(&mut W) +
/// Send` closure, a type this verifier does not accept in the open, so the
/// struct is opaque; jobs enter it only in `try_send_job`, which demands that
/// the closure be callable on every state.
#[verifier::external_body]
#[verifier::reject_recursive_types(W)]
pub struct Job<W> {
    inner: Box<dyn FnOnce(&mut W) + Send + 'static>,
}

/// The sending half of the underlying channel. The verifier refuses the
/// crossbeam type in the open, so it sits in an opaque struct; what the crate
/// states about it is stated on the wrappers below.
#[verifier::external_body]
#[verifier::reject_recursive_types(W)]
pub struct QueueTx<W> {
    inner: crossbeam::channel::Sender<Job<W>>,
}

/// The receiving half of the job queue, held by one worker; opaque for the
/// same reason as `QueueTx`.
#[verifier::external_body]
#[verifier::reject_recursive_types(W)]
pub struct Receiver<W> {
    inner: crossbeam::channel::Receiver<Job<W>>,
}

/// Relies on crossbeam_channel::bounded: it creates a channel that holds at
/// most `cap` messages, and hands back its two halves. The capacity is
/// recorded in the `Sender` so that contracts can speak of it.
#[verifier::external_body]
pub(crate) fn queue_pair<W>(cap: usize) -> (r: (Sender<W>, Receiver<W>))
    ensures
        r.0.capacity() == cap,
{
    let (s, r) = crossbeam::channel::bounded::<Job<W>>(cap);
    (Sender { tx: QueueTx { inner: s }, cap }, Receiver { inner: r })
}

/// Relies on crossbeam_channel::Sender::is_full: a snapshot of whether the
/// channel is at capacity. Other threads move the channel on concurrently, so
/// nothing is promised of the snapshot except for a zero-capacity channel,
/// which crossbeam reports as always full.
#[verifier::external_body]
pub(crate) fn sender_is_full<W>(s: &Sender<W>) -> (r: bool)
    ensures
        s.capacity() == 0 ==> r,
{
    s.tx.inner.is_full()
}

/// Relies on crossbeam_channel::Sender::try_send: it never blocks; on success
/// the message is queued; on a full channel it returns `TrySendError::Full`
/// carrying the message itself back, untouched; on a channel whose receivers
/// are all gone it returns `TrySendError::Disconnected`. A job handed back by
/// a full channel is run here, on the caller's own state: that run is the
/// submitted closure's one invocation, so its postcondition holds of the
/// state. A disconnected channel discards the job and reports `Closed`.
#[verifier::external_body]
pub(crate) fn try_send_job<W, F: FnOnce(&mut W) + Send + 'static>(
    s: &Sender<W>,
    worker: &mut W,
    job: F,
) -> (r: SendResult)
    requires
        forall|m: &mut W| call_requires(job, (m,)),
    ensures
        r == SendResult::Executed ==> exists|m: &mut W|
            *m == *old(worker) && *final(m) == *final(worker) && call_ensures(job, (m,), ()),
        r != SendResult::Executed ==> *final(worker) == *old(worker),
{
    match s.tx.inner.try_send(Job { inner: Box::new(job) }) {
        Ok(()) => SendResult::Queued,
        Err(crossbeam::channel::TrySendError::Full(j)) => {
            (j.inner)(worker);
            SendResult::Executed
        },
        Err(crossbeam::channel::TrySendError::Disconnected(_)) => SendResult::Closed,
    }
}

/// Relies on crossbeam_channel::Receiver::recv: it blocks until a message
/// arrives, and returns `RecvError` once the channel is empty and every
/// sender is gone. Messages are handed out in queue order, each exactly once.
#[verifier::external_body]
pub(crate) fn recv_job<W>(r: &Receiver<W>) -> (j: Option<Job<W>>) {
    match r.inner.recv() {
        Ok(j) => Some(j),
        Err(crossbeam::channel::RecvError) => None,
    }
}

/// Relies on FnOnce::call_once through the job's box: the dequeued closure
/// runs once, on this worker's state. Nothing is known of the closure here,
/// so nothing is promised of the state; `try_send_job` only admits closures
/// that are callable on every state.
#[verifier::external_body]
pub(crate) fn run_job<W>(j: Job<W>, w: &mut W) {
    (j.inner)(w)
}

/// Relies on crossbeam_channel::Sender::clone: another handle to the same
/// channel, so the recorded capacity carries over.
#[verifier::external_body]
pub(crate) fn clone_sender<W>(s: &Sender<W>) -> (r: Sender<W>)
    ensures
        r.capacity() == s.capacity(),
{
    Sender { tx: QueueTx { inner: s.tx.inner.clone() }, cap: s.cap }
}

/// Relies on crossbeam_channel::Receiver::clone: another handle to the same
/// channel.
#[verifier::external_body]
pub(crate) fn clone_receiver<W>(r: &Receiver<W>) -> (c: Receiver<W>) {
    Receiver { inner: r.inner.clone() }
}

impl<W> Clone for Receiver<W> {
    /// Another handle to the same queue; each queued job is received by
    /// exactly one of the handles.
    fn clone(&self) -> Self {
        clone_receiver(self)
    }
}

/// Create the bounded job queue of a pool: its capacity is the effective
/// worker count times the slots per worker, so a pool of no workers gets a
/// queue of no capacity, on which every submission overflows into a
/// synchronous call.
pub fn open_queue<W>(options: &Options, parallelism: usize) -> (r: (Sender<W>, Receiver<W>))
    requires
        options.effective_threads(parallelism) <= usize::MAX,
        options.effective_threads(parallelism) * options.slots <= usize::MAX,
    ensures
        r.0.capacity() == options.effective_threads(parallelism) * options.slots,
{
    let threads = options.get_threads(parallelism);
    let cap = threads * options.slots;
    queue_pair(cap)
}

/// Relies on crossbeam_channel::Sender::drop: it releases this handle; when
/// the last handle anywhere is gone, the channel closes and drained receivers
/// see it as disconnected.
#[verifier::external_body]
pub(crate) fn drop_sender<W>(s: Sender<W>) {
    let _ = s;
}

} // verus!
