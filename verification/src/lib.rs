//! A bounded pool of worker threads for recursive, number-crunching
//! workloads.
//!
//! Jobs are one-shot closures that mutate a per-worker state. Submission
//! never blocks: when the bounded queue is full, the job runs synchronously
//! on the submitter's own worker state, which keeps recursive workloads from
//! deadlocking when producers outnumber consumers.

mod options;
mod pool;
mod queue;
mod sender;

pub use options::lemma_io_bound_scales;
pub use options::lemma_one_is_zero_wins;
pub use options::lemma_zero_base_stays_zero;
pub use options::Options;
pub use pool::execute;
pub use pool::execute_outcome;
pub use pool::folds_outputs;
pub use pool::lemma_execute_degenerate;
pub use pool::lemma_folds_outputs_preserves;
pub use pool::worker_run;
pub use pool::PoolError;
pub use queue::open_queue;
pub use queue::Receiver;
pub use sender::SendResult;
pub use sender::Sender;
