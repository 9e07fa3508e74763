//! Behavior of the queue, the submission handle, the worker loop and the
//! scoped batch entry point.

use std::sync::atomic::{AtomicBool, Ordering};
use std::sync::Arc;

use crunch_pool::{execute, open_queue, worker_run, Options, PoolError, SendResult, Sender};

/// Submissions beyond the queue's capacity run synchronously on the
/// submitter's own state; queued ones are drained by the worker loop, and
/// none is lost.
#[test]
fn overflow_runs_inline_and_nothing_is_lost() {
    // threads 2, slots 2: capacity 4.
    let opts = Options::default().threads(Some(2)).slots(2);
    let (tx, rx) = open_queue::<u64>(&opts, 0);
    let mut local: u64 = 0;

    assert!(!tx.is_full());
    for _ in 0..4 {
        let r = tx.send(&mut local, |w: &mut u64| *w += 1);
        assert_eq!(r, SendResult::Queued);
    }
    // The queue is now at capacity; the next submission runs here.
    assert!(tx.is_full());
    let r = tx.send(&mut local, |w: &mut u64| *w += 1);
    assert_eq!(r, SendResult::Executed);
    assert_eq!(local, 1);

    // Close the queue and drain it on this thread.
    drop(tx);
    let drained = worker_run(rx, 0u64, |p: u64| p, |w: u64| w);
    assert_eq!(drained, 4);
    assert_eq!(local + drained, 5);
}

/// A cloned handle feeds the same queue.
#[test]
fn cloned_sender_feeds_same_queue() {
    let opts = Options::default().threads(Some(1)).slots(8);
    let (tx, rx) = open_queue::<u64>(&opts, 0);
    let tx2 = tx.clone();
    let mut local: u64 = 0;
    assert_eq!(tx.send(&mut local, |w: &mut u64| *w += 1), SendResult::Queued);
    assert_eq!(tx2.send(&mut local, |w: &mut u64| *w += 10), SendResult::Queued);
    drop(tx);
    drop(tx2);
    let drained = worker_run(rx, 0u64, |p: u64| p, |w: u64| w);
    assert_eq!(drained, 11);
    assert_eq!(local, 0);
}

/// The worker loop hands jobs to the state in the order they were queued.
#[test]
fn jobs_drain_in_queue_order() {
    let opts = Options::default().threads(Some(1)).slots(64);
    let (tx, rx) = open_queue::<Vec<u64>>(&opts, 0);
    let mut local: Vec<u64> = Vec::new();
    for i in 0..50u64 {
        let r = tx.send(&mut local, move |w: &mut Vec<u64>| w.push(i));
        assert_eq!(r, SendResult::Queued);
    }
    drop(tx);
    let drained = worker_run(rx, Vec::new(), |p: Vec<u64>| p, |w: Vec<u64>| w);
    let expected: Vec<u64> = (0..50).collect();
    assert_eq!(drained, expected);
    assert!(local.is_empty());
}

/// Submitting into a queue whose receivers are all gone reports `Closed`,
/// discards the job, and leaves the state untouched.
#[test]
fn send_after_receivers_gone_reports_closed() {
    let opts = Options::default().threads(Some(1)).slots(4);
    let (tx, rx) = open_queue::<u64>(&opts, 0);
    drop(rx);
    let mut local: u64 = 0;
    let r = tx.send(&mut local, |w: &mut u64| *w += 1);
    assert_eq!(r, SendResult::Closed);
    assert_eq!(local, 0);
}

/// Zero-thread mode: with a worker count of 1 remapped to 0 the queue has no
/// capacity, so the job has already run on the caller's own state when
/// `send` returns.
#[test]
fn zero_thread_mode_runs_jobs_before_send_returns() {
    let opts = Options::default().threads(Some(1)).one_is_zero();
    let (tx, _rx) = open_queue::<Vec<String>>(&opts, 0);
    let mut local: Vec<String> = Vec::new();
    let r = tx.send(&mut local, |w: &mut Vec<String>| w.push(String::from("x")));
    assert_eq!(r, SendResult::Executed);
    assert_eq!(local, vec![String::from("x")]);
}

/// Zero-thread mode through the batch entry point: no worker outputs exist,
/// so the result is exactly what the seeding step produced.
#[test]
fn zero_thread_batch_returns_seed_result() {
    let opts = Options::default().threads(Some(1)).one_is_zero();
    let out = execute(
        opts,
        0,
        |_ordinal: usize| 0u64,
        |w: u64| w,
        |tx: &Sender<u64>| {
            let mut local: u64 = 0;
            for _ in 0..25 {
                let r = tx.send(&mut local, |w: &mut u64| *w += 1);
                assert_eq!(r, SendResult::Executed);
            }
            local
        },
        |_acc: u64, _y: u64| panic!("no worker output exists to combine"),
    );
    assert_eq!(out, Ok(25));
}

/// Counter sum: four workers, 10_000 increments submitted; every increment
/// lands exactly once, on a worker's counter or on the submitter's own.
#[test]
fn counter_sum_reaches_ten_thousand() {
    let out = execute(
        Options::default().threads(Some(4)).slots(8),
        0,
        |_ordinal: usize| 0u64,
        |w: u64| w,
        |tx: &Sender<u64>| {
            let mut local: u64 = 0;
            for _ in 0..10_000 {
                tx.send(&mut local, |w: &mut u64| *w += 1);
            }
            local
        },
        |acc: u64, y: u64| acc + y,
    );
    assert_eq!(out, Ok(10_000));
}

/// Synchronous overflow: one worker with one slot; a seed job submits 100
/// appends from the worker itself, so every append lands in that worker's
/// list, partly queued, partly run inline on overflow.
#[test]
fn synchronous_overflow_keeps_all_hundred() {
    let out = execute(
        Options::default().threads(Some(1)).slots(1),
        0,
        |_ordinal: usize| Vec::<u64>::new(),
        |w: Vec<u64>| w,
        |tx: &Sender<Vec<u64>>| {
            let tx2 = tx.clone();
            let mut local: Vec<u64> = Vec::new();
            let r = tx.send(&mut local, move |w: &mut Vec<u64>| {
                for i in 0..100u64 {
                    tx2.send(w, move |w2: &mut Vec<u64>| w2.push(i));
                }
            });
            assert_eq!(r, SendResult::Queued);
            local
        },
        |mut acc: Vec<u64>, mut y: Vec<u64>| {
            acc.append(&mut y);
            acc
        },
    );
    let mut got = out.unwrap();
    assert_eq!(got.len(), 100);
    got.sort();
    let expected: Vec<u64> = (0..100).collect();
    assert_eq!(got, expected);
}

fn fan_out(tx: &Sender<u64>, w: &mut u64, depth: u32) {
    *w += 1;
    if depth > 0 {
        for _ in 0..2 {
            let tx2 = tx.clone();
            tx.send(w, move |w2: &mut u64| fan_out(&tx2, w2, depth - 1));
        }
    }
}

/// Recursive fan-out: a seed enqueues two children, each enqueues two more,
/// to depth 8; every node counts, so the counters sum to 2^9 - 1 = 511.
#[test]
fn recursive_fan_out_counts_every_node() {
    let out = execute(
        Options::default().threads(Some(2)).slots(2),
        0,
        |_ordinal: usize| 0u64,
        |w: u64| w,
        |tx: &Sender<u64>| {
            let tx2 = tx.clone();
            let mut local: u64 = 0;
            tx.send(&mut local, move |w: &mut u64| fan_out(&tx2, w, 8));
            local
        },
        |acc: u64, y: u64| acc + y,
    );
    assert_eq!(out, Ok(511));
}

/// Scoped combine: 1_000 increments seeded into a default-configured batch,
/// outputs folded from 0 by summing.
#[test]
fn scoped_combine_sums_to_one_thousand() {
    let out = execute(
        Options::default(),
        4,
        |_ordinal: usize| 0u64,
        |w: u64| w,
        |tx: &Sender<u64>| {
            let mut local: u64 = 0;
            for _ in 0..1_000 {
                tx.send(&mut local, |w: &mut u64| *w += 1);
            }
            local
        },
        |acc: u64, y: u64| acc + y,
    );
    assert_eq!(out, Ok(1_000));
}

/// Workers are created from their 1-based ordinal, and outputs are folded in
/// spawn order.
#[test]
fn worker_ordinals_are_one_based_and_folded_in_order() {
    let out = execute(
        Options::default().threads(Some(3)).slots(1),
        0,
        |ordinal: usize| ordinal as u64,
        |w: u64| w,
        |_tx: &Sender<u64>| Vec::<u64>::new(),
        |mut acc: Vec<u64>, y: u64| {
            acc.push(y);
            acc
        },
    );
    assert_eq!(out, Ok(vec![1, 2, 3]));
}

/// Submission never blocks: with the single worker stalled on a flag and the
/// queue full, further submissions still return, running inline.
#[test]
fn send_returns_while_worker_is_stalled() {
    let flag = Arc::new(AtomicBool::new(false));
    let stall = flag.clone();
    let out = execute(
        Options::default().threads(Some(1)).slots(1),
        0,
        |_ordinal: usize| 0u64,
        |w: u64| w,
        move |tx: &Sender<u64>| {
            let mut local: u64 = 0;
            // Stall the only worker until the flag flips.
            tx.send(&mut local, move |_w: &mut u64| {
                while !stall.load(Ordering::SeqCst) {
                    std::hint::spin_loop();
                }
            });
            // These must all return even though the worker makes no
            // progress; once the slot is taken they run inline.
            let mut inline: u64 = 0;
            for _ in 0..50 {
                let r = tx.send(&mut local, |w: &mut u64| *w += 1);
                if r == SendResult::Executed {
                    inline += 1;
                }
            }
            assert!(inline >= 48);
            flag.store(true, Ordering::SeqCst);
            local
        },
        |acc: u64, y: u64| acc + y,
    );
    assert_eq!(out, Ok(50));
}

/// A panicking job unwinds only its own worker; the batch reports the panic
/// after every worker has been waited for.
#[test]
fn panicked_worker_is_reported() {
    let out = execute(
        Options::default().threads(Some(1)).slots(4),
        0,
        |_ordinal: usize| 0u64,
        |w: u64| w,
        |tx: &Sender<u64>| {
            let mut local: u64 = 0;
            tx.send(&mut local, |_w: &mut u64| panic!("job failure"));
            local
        },
        |acc: u64, y: u64| acc + y,
    );
    assert_eq!(out, Err(PoolError::WorkerPanicked));
}
