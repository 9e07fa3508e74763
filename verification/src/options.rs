//! Configuration options for a pool.

use vstd::prelude::*;

verus! {

/// The configuration from which a pool is built: how many worker threads to
/// run, how many queue slots to give each of them, and two remapping flags
/// for the thread count.
#[derive(Clone, Copy, Debug)]
pub struct Options {
    /// Requested worker count; `None` means "use the host's parallelism".
    pub threads: Option<usize>,
    /// Queue slots per worker thread; the queue capacity is `threads * slots`.
    pub slots: usize,
    /// Remap a computed count of exactly 1 to 0, making every call synchronous.
    pub one_is_zero: bool,
    /// Quadruple the worker count to compensate for workers stalled in I/O.
    pub io_bound: bool,
}

impl Options {
    /// The worker count before any remap: the configured count, or, when none
    /// was configured, the host parallelism probed by the caller.
    pub open spec fn base_threads(&self, parallelism: usize) -> usize {
        match self.threads {
            Some(t) => t,
            None => parallelism,
        }
    }

    /// The effective worker count: a base count of exactly 1 becomes 0 under
    /// `one_is_zero`; otherwise `io_bound` quadruples the base count. A base
    /// count of 0 stays 0 either way.
    pub open spec fn effective_threads(&self, parallelism: usize) -> int {
        let base = self.base_threads(parallelism);
        if base == 1 && self.one_is_zero {
            0
        } else if self.io_bound {
            4 * base
        } else {
            base as int
        }
    }

    /// Compute the effective worker count.
    ///
    /// `parallelism` is the host's available parallelism, probed by the caller
    /// (0 when the probe failed); it is used only when no thread count was
    /// configured.
    pub fn get_threads(&self, parallelism: usize) -> (n: usize)
        requires
            self.effective_threads(parallelism) <= usize::MAX,
        ensures
            n == self.effective_threads(parallelism),
    {
        let base = match self.threads {
            Some(t) => t,
            None => parallelism,
        };
        if base == 1 && self.one_is_zero {
            0
        } else if self.io_bound {
            4 * base
        } else {
            base
        }
    }

    /// Set the worker count. `None` means one worker per unit of host
    /// parallelism.
    pub fn threads(self, threads: Option<usize>) -> (o: Self)
        ensures
            o == (Options { threads, ..self }),
    {
        Options { threads, ..self }
    }

    /// Set the queue slots per worker thread.
    pub fn slots(self, slots: usize) -> (o: Self)
        requires
            1 <= slots,
        ensures
            o == (Options { slots, ..self }),
    {
        Options { slots, ..self }
    }

    /// Request that a worker count of exactly 1 be remapped to 0, so that
    /// every submission runs synchronously on the submitter.
    pub fn one_is_zero(self) -> (o: Self)
        ensures
            o == (Options { one_is_zero: true, ..self }),
    {
        Options { one_is_zero: true, ..self }
    }

    /// Declare the workload I/O-bound, so that four times as many workers are
    /// started to cover for workers blocked in I/O.
    pub fn io_bound(self) -> (o: Self)
        ensures
            o == (Options { io_bound: true, ..self }),
    {
        Options { io_bound: true, ..self }
    }
}

/// A computed count of exactly 1 is remapped to 0 under `one_is_zero`, even
/// when `io_bound` is also set: the remap to zero wins, and the pool is
/// fully synchronous.
pub proof fn lemma_one_is_zero_wins(o: Options, parallelism: usize)
    requires
        o.one_is_zero,
        o.base_threads(parallelism) == 1,
    ensures
        o.effective_threads(parallelism) == 0,
{
}

/// A base count of 0 — nothing configured and a failed parallelism probe —
/// stays 0: `io_bound` multiplies it to no effect, and the pool degenerates
/// to a synchronous one.
pub proof fn lemma_zero_base_stays_zero(o: Options, parallelism: usize)
    requires
        o.base_threads(parallelism) == 0,
    ensures
        o.effective_threads(parallelism) == 0,
{
}

/// Whenever the `one_is_zero` remap does not strike, the `io_bound` flag
/// quadruples the worker count.
pub proof fn lemma_io_bound_scales(o: Options, parallelism: usize)
    requires
        o.io_bound,
        !(o.base_threads(parallelism) == 1 && o.one_is_zero),
    ensures
        o.effective_threads(parallelism) == 4 * o.base_threads(parallelism),
{
}

impl Default for Options {
    /// No configured thread count, 8 slots per worker, both flags off.
    fn default() -> (o: Self)
        ensures
            o == (Options { threads: None, slots: 8, one_is_zero: false, io_bound: false }),
    {
        Options { threads: None, slots: 8, one_is_zero: false, io_bound: false }
    }
}

} // verus!
