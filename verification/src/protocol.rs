//! The counter protocol of the futex and the state machine of an asynchronous wait.
//!
//! The counter holds the number of registered waiters minus the number of
//! notifications handed out. A positive value is the number of waiters that
//! sit in (or are about to enter) the queue; a negative value is the number
//! of notifications stored for waiters that have not arrived yet.
//!
//! The atomic operations themselves are performed in `futex`; this module
//! holds what is decided from the values that they return.

use vstd::prelude::*;

verus! {

/// State of a wait future that has never been polled.
pub const UNPOLLED: isize = 0;

/// State of a wait future whose waiter sits in the queue.
pub const WAITING: isize = 1;

/// State of a wait future that has been notified (all bits set).
pub const NOTIFIED: isize = -1;

/// Whether a waiter that found `previous` in the counter must queue itself and block:
/// it does unless a stored notification (a negative counter) was there for it.
pub open spec fn blocks(previous: int) -> bool {
    previous >= 0
}

/// `blocks` of a counter word.
pub open spec fn arrival_blocks(previous: isize) -> bool {
    blocks(previous as int)
}

/// Decides, from the counter value that an arriving waiter replaced, whether it must block.
pub fn must_block(previous: isize) -> (r: bool)
    ensures
        r == arrival_blocks(previous),
{
    previous >= 0
}

/// The amount by which a notification of `count` waiters lowers the counter:
/// `count`, capped at `isize::MAX`. No counter value exceeds `isize::MAX`, so a
/// larger count wakes every registered waiter all the same, and the amount is
/// never negative: a notification never raises the counter.
pub open spec fn notify_amount(count: usize) -> isize {
    if count <= isize::MAX as usize {
        count as isize
    } else {
        isize::MAX
    }
}

/// Computes the amount by which a notification of `count` waiters lowers the counter.
pub fn amount_of(count: usize) -> (r: isize)
    ensures
        r == notify_amount(count),
        0 <= r,
        r as int <= count as int,
{
    if count <= isize::MAX as usize {
        count as isize
    } else {
        isize::MAX
    }
}

/// The number of queued waiters that a notifier must wake after it lowered the
/// counter by `amount` from `previous`: as many as were registered, but no more
/// than it asked for; none when no waiter was registered or nothing was asked.
pub open spec fn wakeups(previous: int, amount: int) -> int {
    if previous > 0 && amount > 0 {
        if previous < amount {
            previous
        } else {
            amount
        }
    } else {
        0
    }
}

/// The number of waiters owed a wakeup by a notification of `count` waiters that
/// found `previous` in the counter: the smaller of the two when both are positive.
pub open spec fn owed(previous: isize, count: usize) -> int {
    wakeups(previous as int, count as int)
}

/// Capping the amount at `isize::MAX` changes no wakeup: no counter value is larger.
pub proof fn capped_amount_owes_the_same(previous: isize, count: usize)
    ensures
        wakeups(previous as int, notify_amount(count) as int) == owed(previous, count),
{
}

/// Computes how many queued waiters a notifier must wake after it lowered the
/// counter by `amount` from `previous`.
pub fn wakeups_owed(previous: isize, amount: isize) -> (r: usize)
    ensures
        r == wakeups(previous as int, amount as int),
{
    if previous > 0 && amount > 0 {
        if previous < amount {
            previous as usize
        } else {
            amount as usize
        }
    } else {
        0
    }
}

/// What a poll of a wait future does, given the state it finds.
#[derive(PartialEq, Eq, Structural, Debug, Clone, Copy)]
pub enum PollAction {
    /// First poll: register with the futex.
    Register,
    /// Already queued and not yet notified.
    Pending,
    /// Notified: the wait is over.
    Ready,
}

/// The action that a poll takes on finding `state` in the future.
pub open spec fn action_for(state: isize) -> PollAction {
    if state == UNPOLLED {
        PollAction::Register
    } else if state == WAITING {
        PollAction::Pending
    } else {
        PollAction::Ready
    }
}

/// Decides what a poll does on finding `state` in the future.
pub fn poll_action(state: isize) -> (r: PollAction)
    ensures
        r == action_for(state),
{
    if state == UNPOLLED {
        PollAction::Register
    } else if state == WAITING {
        PollAction::Pending
    } else {
        PollAction::Ready
    }
}

/// The state that a future takes after registering with a counter that held `previous`:
/// waiting if it must block, notified if a stored notification was there for it.
pub open spec fn state_after_registration(previous: isize) -> isize {
    if arrival_blocks(previous) {
        WAITING
    } else {
        NOTIFIED
    }
}

/// Computes the state that a future takes after registering with a counter that held `previous`.
pub fn registration_state(previous: isize) -> (r: isize)
    ensures
        r == state_after_registration(previous),
{
    if must_block(previous) {
        WAITING
    } else {
        NOTIFIED
    }
}

/// Whether dropping a future in `state` must abort the process: a queued waiter
/// points into the future, so the future may not go away while it waits.
pub open spec fn aborts_on_drop(state: isize) -> bool {
    state == WAITING
}

/// Decides whether dropping a future in `state` must abort the process.
pub fn must_abort_on_drop(state: isize) -> (r: bool)
    ensures
        r == aborts_on_drop(state),
{
    state == WAITING
}

} // verus!
