//! The futex itself: an atomic counter and a concurrent queue of waiters.
//!
//! The values of the atomics and the contents of the queue change through
//! shared references, from other threads, so no contract here speaks of them.
//! Each operation therefore returns the values that it read, and its contract
//! says exactly what was decided from them (see `protocol`). What a waiter is,
//! how it is woken and how a thread blocks are left to the caller, which
//! chooses `W`.

use crate::protocol::{
    action_for, aborts_on_drop, amount_of, arrival_blocks, must_abort_on_drop, must_block, owed, poll_action,
    registration_state, wakeups_owed, capped_amount_owes_the_same, PollAction, NOTIFIED, UNPOLLED,
};
use crossbeam_queue::SegQueue;
use std::sync::atomic::AtomicIsize;
use std::sync::atomic::Ordering;
use vstd::prelude::*;

verus! {

#[verifier::external_type_specification]
#[verifier::external_body]
#[verifier::reject_recursive_types(T)]
pub struct ExSegQueue<T>(SegQueue<T>);

/// Calls `crossbeam_queue::SegQueue::new`, which builds an empty unbounded queue.
/// Nothing is stated of the queue: its contents change later through shared
/// references, which no view of the value can follow.
#[verifier::external_body]
fn queue_new<W>() -> SegQueue<W> {
    SegQueue::new()
}

/// Calls `crossbeam_queue::SegQueue::push`, which appends `waiter` at the tail.
/// Nothing is stated: the queue is shared between threads and changes through `&`.
#[verifier::external_body]
fn queue_push<W>(queue: &SegQueue<W>, waiter: W) {
    queue.push(waiter)
}

/// Calls `crossbeam_queue::SegQueue::pop`, which takes the head element, or
/// gives `None` when the queue is empty at that moment. Which of the two comes
/// back depends on what other threads did, so nothing is stated of the result.
#[verifier::external_body]
fn queue_pop<W>(queue: &SegQueue<W>) -> Option<W> {
    queue.pop()
}

/// What an arriving waiter found in the counter, and what follows from it.
#[derive(Debug, Clone, Copy)]
#[must_use]
pub struct Arrival {
    /// The counter value before the arrival raised it by one.
    pub previous: isize,
    /// Whether the waiter must queue itself and block.
    pub must_block: bool,
}

/// What a notifier found in the counter, and how many queued waiters it owes a wakeup.
#[derive(Debug, Clone, Copy)]
#[must_use]
pub struct Claim {
    /// The counter value before the notification lowered it.
    pub previous: isize,
    /// The number of waiters that the notifier must take from the queue and wake.
    pub wakeups: usize,
}

/// What one poll of a wait future observed and decided.
#[derive(Debug, Clone, Copy)]
#[must_use]
pub struct PollReport {
    /// The state that the poll found in the future.
    pub observed: isize,
    /// The arrival at the futex, made on the first poll only.
    pub arrival: Option<Arrival>,
    /// What the caller must do next.
    pub outcome: PollOutcome,
}

/// The outcome of one poll of a wait future.
#[derive(PartialEq, Eq, Structural, Debug, Clone, Copy)]
pub enum PollOutcome {
    /// The future registered and must now be queued; the wait is pending.
    Enqueue,
    /// The wait is still pending.
    Pending,
    /// The wait is over.
    Ready,
}

/// The outcome that a poll reports, given the state it found and, on a first
/// poll, the counter value that its arrival replaced.
pub open spec fn poll_outcome(observed: isize, previous: isize) -> PollOutcome {
    match action_for(observed) {
        PollAction::Register => if arrival_blocks(previous) {
            PollOutcome::Enqueue
        } else {
            PollOutcome::Ready
        },
        PollAction::Pending => PollOutcome::Pending,
        PollAction::Ready => PollOutcome::Ready,
    }
}

/// Whether a poll report is what a poll decides from what it observed.
pub open spec fn report_consistent(r: PollReport) -> bool {
    match r.arrival {
        Some(a) => {
            &&& action_for(r.observed) == PollAction::Register
            &&& a.must_block == arrival_blocks(a.previous)
            &&& r.outcome == poll_outcome(r.observed, a.previous)
        },
        None => {
            &&& action_for(r.observed) != PollAction::Register
            &&& r.outcome == poll_outcome(r.observed, 0)
        },
    }
}

/// A synchronization primitive on which threads and tasks wait until another
/// thread notifies them. It holds a counter (registered waiters minus handed-out
/// notifications) and a queue of waiters of type `W`.
#[derive(Debug)]
#[verifier::reject_recursive_types(W)]
pub struct HybridFutex<W> {
    counter: AtomicIsize,
    queue: SegQueue<W>,
}

impl<W> HybridFutex<W> {
    /// Creates a futex with a counter of 0 and an empty queue.
    pub fn new() -> Self {
        HybridFutex { counter: AtomicIsize::new(0), queue: queue_new() }
    }

    /// Returns the current value of the counter.
    pub fn get_counter(&self) -> isize {
        self.counter.load(Ordering::Relaxed)
    }

    /// Registers an arriving waiter: raises the counter by one and reports
    /// whether the waiter must queue itself and block.
    pub fn register_wait(&self) -> (a: Arrival)
        ensures
            a.must_block == arrival_blocks(a.previous),
    {
        let previous = self.counter.fetch_add(1, Ordering::SeqCst);
        Arrival { previous, must_block: must_block(previous) }
    }

    /// Appends a waiter that must block to the queue.
    pub fn enqueue(&self, waiter: W) {
        queue_push(&self.queue, waiter)
    }

    /// Takes the waiter at the head of the queue, if there is one at this moment.
    pub fn take_waiter(&self) -> Option<W> {
        queue_pop(&self.queue)
    }

    /// Notifies one waiter: lowers the counter by one and reports whether a
    /// queued waiter is owed a wakeup (one if the counter was positive). If no
    /// waiter was registered, the notification stays stored in the counter for
    /// the next one to arrive.
    pub fn notify_one(&self) -> (c: Claim)
        ensures
            c.wakeups == owed(c.previous, 1),
            c.wakeups == (if c.previous > 0 { 1int } else { 0int }),
    {
        let previous = self.counter.fetch_sub(1, Ordering::SeqCst);
        Claim { previous, wakeups: wakeups_owed(previous, 1) }
    }

    /// Notifies `count` waiters: lowers the counter by `count` (capped at
    /// `isize::MAX`) and reports how many queued waiters are owed a wakeup: as
    /// many as were registered, up to `count`. Notifications beyond the
    /// registered waiters stay stored in the counter for those that arrive later.
    pub fn notify_many(&self, count: usize) -> (c: Claim)
        ensures
            c.wakeups == owed(c.previous, count),
            c.previous > 0 && c.previous < count ==> c.wakeups == c.previous,
            c.previous > 0 && c.previous >= count ==> c.wakeups == count,
            c.previous <= 0 ==> c.wakeups == 0,
    {
        let amount = amount_of(count);
        let previous = self.counter.fetch_sub(amount, Ordering::SeqCst);
        proof {
            capped_amount_owes_the_same(previous, count);
        }
        Claim { previous, wakeups: wakeups_owed(previous, amount) }
    }

    /// Returns a future that waits on this futex; it registers on its first poll.
    pub fn wait_async(&self) -> (f: WaitFuture<'_, W>)
        ensures
            f.futex() == self,
    {
        WaitFuture { state: AtomicIsize::new(UNPOLLED), wq: self }
    }
}

/// A wait on a `HybridFutex` that registers on its first poll.
/// Its state is `UNPOLLED`, `WAITING` once queued, or `NOTIFIED`.
#[derive(Debug)]
#[verifier::reject_recursive_types(W)]
pub struct WaitFuture<'a, W> {
    state: AtomicIsize,
    wq: &'a HybridFutex<W>,
}

impl<'a, W> WaitFuture<'a, W> {
    /// The futex that this future waits on.
    pub closed spec fn futex(&self) -> &'a HybridFutex<W> {
        self.wq
    }

    /// Returns the futex that this future waits on.
    pub fn futex_ref(&self) -> (r: &'a HybridFutex<W>)
        ensures
            r == self.futex(),
    {
        self.wq
    }

    /// The cell that holds the state of this future.
    pub closed spec fn cell(&self) -> AtomicIsize {
        self.state
    }

    /// Returns the cell that holds the state of this future, through which the
    /// waiter queued for it is marked as notified.
    pub fn state_cell(&self) -> (r: &AtomicIsize)
        ensures
            *r == self.cell(),
    {
        &self.state
    }

    /// Polls the future once. On the first poll it registers with the futex and
    /// records whether it is now waiting or already notified; a waiting future
    /// must then be queued by the caller. Later polls are pending until the
    /// waiter is marked as notified, and ready from then on.
    pub fn poll_step(&self) -> (r: PollReport)
        ensures
            report_consistent(r),
    {
        let observed = self.state.load(Ordering::Acquire);
        match poll_action(observed) {
            PollAction::Register => {
                let arrival = self.wq.register_wait();
                self.state.store(registration_state(arrival.previous), Ordering::Relaxed);
                let outcome = if arrival.must_block {
                    PollOutcome::Enqueue
                } else {
                    PollOutcome::Ready
                };
                PollReport { observed, arrival: Some(arrival), outcome }
            },
            PollAction::Pending => PollReport { observed, arrival: None, outcome: PollOutcome::Pending },
            PollAction::Ready => PollReport { observed, arrival: None, outcome: PollOutcome::Ready },
        }
    }

    /// Reads the state of the future when it is dropped and reports whether the
    /// drop must abort the process (its waiter still sits in the queue).
    pub fn check_drop(&self) -> (r: (isize, bool))
        ensures
            r.1 == aborts_on_drop(r.0),
    {
        let observed = self.state.load(Ordering::Relaxed);
        (observed, must_abort_on_drop(observed))
    }
}

/// Marks the future whose state lives in `state` as notified; the waker of a
/// queued asynchronous waiter does this before it wakes the task.
pub fn signal_notified(state: &AtomicIsize) {
    state.store(NOTIFIED, Ordering::Release);
}

} // verus!
