//! Laws of the futex protocol, over a model of one futex whose operations take
//! effect one after another: the counter and the number of waiters in the queue.
//!
//! An arrival raises the counter by one and queues the waiter when
//! `blocks` says so; a notification lowers the counter by its amount and takes
//! `wakeups` waiters from the queue. These are the steps that
//! `HybridFutex::register_wait`, `HybridFutex::enqueue`, `HybridFutex::notify_many`
//! and `HybridFutex::take_waiter` perform, with the decisions of `protocol`.

use crate::protocol::{
    aborts_on_drop, action_for, arrival_blocks, blocks, notify_amount, owed, state_after_registration,
    wakeups, PollAction, NOTIFIED, UNPOLLED, WAITING,
};
use vstd::prelude::*;

verus! {

/// A futex as seen between operations: its counter and the number of queued waiters.
pub struct FutexModel {
    pub counter: int,
    pub queued: int,
}

impl FutexModel {
    /// A futex as `HybridFutex::new` makes it.
    pub open spec fn fresh() -> FutexModel {
        FutexModel { counter: 0, queued: 0 }
    }

    /// The queue holds exactly the positive part of the counter.
    pub open spec fn accounted(self) -> bool {
        self.queued == if self.counter > 0 {
            self.counter
        } else {
            0
        }
    }

    /// One waiter arrives: the counter goes up by one, and the waiter is queued
    /// when it must block.
    pub open spec fn arrive(self) -> FutexModel {
        FutexModel {
            counter: self.counter + 1,
            queued: self.queued + if blocks(self.counter) {
                1int
            } else {
                0int
            },
        }
    }

    /// `n` waiters arrive, one after another.
    pub open spec fn arrive_n(self, n: nat) -> FutexModel
        decreases n,
    {
        if n == 0 {
            self
        } else {
            self.arrive_n((n - 1) as nat).arrive()
        }
    }

    /// A notification lowers the counter by `amount` and wakes the waiters it owes.
    pub open spec fn notify(self, amount: int) -> FutexModel {
        FutexModel {
            counter: self.counter - amount,
            queued: self.queued - wakeups(self.counter, amount),
        }
    }

    /// `n` notifications of one waiter each, one after another.
    pub open spec fn notify_ones(self, n: nat) -> FutexModel
        decreases n,
    {
        if n == 0 {
            self
        } else {
            self.notify_ones((n - 1) as nat).notify(1)
        }
    }
}

/// One operation on a futex: an arrival, or a notification lowering the counter by an amount.
pub enum FutexOp {
    Arrive,
    Notify(int),
}

impl FutexModel {
    /// The effect of one operation.
    pub open spec fn step(self, op: FutexOp) -> FutexModel {
        match op {
            FutexOp::Arrive => self.arrive(),
            FutexOp::Notify(amount) => self.notify(amount),
        }
    }

    /// The effect of a sequence of operations, taken one after another.
    pub open spec fn run(self, ops: Seq<FutexOp>) -> FutexModel
        decreases ops.len(),
    {
        if ops.len() == 0 {
            self
        } else {
            self.run(ops.drop_last()).step(ops.last())
        }
    }
}

/// The number of arrivals in a sequence of operations.
pub open spec fn arrivals(ops: Seq<FutexOp>) -> int
    decreases ops.len(),
{
    if ops.len() == 0 {
        0
    } else {
        arrivals(ops.drop_last()) + match ops.last() {
            FutexOp::Arrive => 1int,
            FutexOp::Notify(_) => 0int,
        }
    }
}

/// The total amount notified in a sequence of operations.
pub open spec fn notified(ops: Seq<FutexOp>) -> int
    decreases ops.len(),
{
    if ops.len() == 0 {
        0
    } else {
        notified(ops.drop_last()) + match ops.last() {
            FutexOp::Arrive => 0int,
            FutexOp::Notify(amount) => amount,
        }
    }
}

/// Whether every notification in a sequence lowers the counter by a non-negative amount.
pub open spec fn amounts_nonnegative(ops: Seq<FutexOp>) -> bool {
    forall|i: int| 0 <= i < ops.len() ==> (#[trigger] ops[i] matches FutexOp::Notify(a) ==> a >= 0)
}

/// The counter is the number of arrivals minus the total amount notified, whatever
/// the order of the operations and whatever the counter held: every arrival raises
/// it by exactly one and every notification lowers it by exactly its amount,
/// negative counters included. So a fresh futex that saw `n` arrivals and
/// notifications of total amount `m` holds `n - m`.
pub proof fn counter_is_arrivals_minus_notified(s: FutexModel, ops: Seq<FutexOp>)
    ensures
        s.run(ops).counter == s.counter + arrivals(ops) - notified(ops),
        FutexModel::fresh().run(ops).counter == arrivals(ops) - notified(ops),
    decreases ops.len(),
{
    if ops.len() > 0 {
        counter_is_arrivals_minus_notified(s, ops.drop_last());
        counter_is_arrivals_minus_notified(FutexModel::fresh(), ops.drop_last());
    }
}

/// Every sequence of arrivals and non-negative notifications keeps the queue
/// equal to the positive part of the counter.
pub proof fn operations_keep_accounting(s: FutexModel, ops: Seq<FutexOp>)
    requires
        s.accounted(),
        amounts_nonnegative(ops),
    ensures
        s.run(ops).accounted(),
    decreases ops.len(),
{
    if ops.len() > 0 {
        let prefix = ops.drop_last();
        assert forall|i: int| 0 <= i < prefix.len() implies (#[trigger] prefix[i] matches FutexOp::Notify(
            a,
        ) ==> a >= 0) by {
            assert(prefix[i] == ops[i]);
        }
        operations_keep_accounting(s, prefix);
        let t = s.run(prefix);
        match ops.last() {
            FutexOp::Arrive => arrival_keeps_accounting(t),
            FutexOp::Notify(amount) => {
                assert(ops[ops.len() - 1] matches FutexOp::Notify(a) ==> a >= 0);
                notification_keeps_accounting(t, amount);
            },
        }
    }
}

/// A notification of one waiter lowers the counter by exactly one, whatever the
/// counter held; a notification of `count` lowers it by exactly its amount.
pub proof fn notification_lowers_by_its_amount(s: FutexModel, count: usize)
    ensures
        s.notify(notify_amount(1) as int).counter == s.counter - 1,
        s.notify(notify_amount(count) as int).counter == s.counter - notify_amount(count),
        count <= isize::MAX ==> s.notify(notify_amount(count) as int).counter == s.counter - count,
{
}

/// Notifications given while no waiter is registered add up: `a` then `b` of them
/// leave a counter of `-(a + b)` and an empty queue, and the next `a + b` waiters
/// all pass without blocking, after which the counter is back at 0.
pub proof fn stored_notifications_add_up(a: nat, b: nat)
    ensures
        FutexModel::fresh().notify(a as int).notify(b as int) == (FutexModel {
            counter: -(a + b),
            queued: 0,
        }),
        forall|k: nat|
            k < a + b ==> !blocks(
                #[trigger] FutexModel::fresh().notify(a as int).notify(b as int).arrive_n(k).counter,
            ),
        FutexModel::fresh().notify(a as int).notify(b as int).arrive_n(a + b) == FutexModel::fresh(),
{
    let s = FutexModel::fresh().notify(a as int).notify(b as int);
    stored_arrivals_pass(s, (a + b) as nat);
}

/// `n` notifications of one waiter each, given to a fresh futex, leave a counter of
/// `-n`, and the next `n` waiters all pass without blocking.
pub proof fn stored_single_notifications_add_up(n: nat)
    ensures
        FutexModel::fresh().notify_ones(n) == (FutexModel { counter: -n, queued: 0 }),
        forall|k: nat| k < n ==> !blocks(#[trigger] FutexModel::fresh().notify_ones(n).arrive_n(k).counter),
        FutexModel::fresh().notify_ones(n).arrive_n(n) == FutexModel::fresh(),
{
    notify_many_is_repeated_notify_one(FutexModel::fresh(), n);
    stored_arrivals_pass(FutexModel::fresh().notify_ones(n), n);
}

/// Arrivals at a futex holding `n` stored notifications and no queued waiter pass
/// one by one, each using up one notification.
pub proof fn stored_arrivals_pass(s: FutexModel, n: nat)
    requires
        s.counter == -n,
        s.queued == 0,
    ensures
        forall|k: nat| k <= n ==> (#[trigger] s.arrive_n(k)) == (FutexModel { counter: k - n, queued: 0 }),
        forall|k: nat| k < n ==> !blocks(#[trigger] s.arrive_n(k).counter),
        s.arrive_n(n) == FutexModel::fresh(),
{
    assert forall|k: nat| k <= n implies (#[trigger] s.arrive_n(k)) == (FutexModel {
        counter: k - n,
        queued: 0,
    }) by {
        stored_arrivals_prefix(s, n, k);
    }
    assert forall|k: nat| k < n implies !blocks(#[trigger] s.arrive_n(k).counter) by {
        stored_arrivals_prefix(s, n, k);
    }
    stored_arrivals_prefix(s, n, n);
}

proof fn stored_arrivals_prefix(s: FutexModel, n: nat, k: nat)
    requires
        s.counter == -n,
        s.queued == 0,
        k <= n,
    ensures
        s.arrive_n(k) == (FutexModel { counter: k - n, queued: 0 }),
    decreases k,
{
    if k > 0 {
        stored_arrivals_prefix(s, n, (k - 1) as nat);
    }
}

/// While no notification is stored, every arriving waiter blocks: from a
/// counter of zero or more, each of `n` arrivals one after another must queue
/// itself (so a second future registering behind a first one is left waiting too,
/// see `registration_that_blocks_waits`).
pub proof fn arrivals_without_stored_notification_block(s: FutexModel, n: nat)
    requires
        s.counter >= 0,
    ensures
        forall|k: nat| k < n ==> blocks(#[trigger] s.arrive_n(k).counter),
    decreases n,
{
    assert forall|k: nat| k < n implies blocks(#[trigger] s.arrive_n(k).counter) by {
        arrivals_raise_counter(s, k);
    }
}

proof fn arrivals_raise_counter(s: FutexModel, k: nat)
    ensures
        s.arrive_n(k).counter == s.counter + k,
    decreases k,
{
    if k > 0 {
        arrivals_raise_counter(s, (k - 1) as nat);
    }
}

/// A future whose first poll registers with a counter of `previous` is left
/// waiting exactly when its waiter must block, and then every later poll is
/// pending and a drop aborts; otherwise it is left notified and every later poll
/// is ready.
pub proof fn registration_that_blocks_waits(previous: isize)
    ensures
        (state_after_registration(previous) == WAITING) <==> arrival_blocks(previous),
        (state_after_registration(previous) == NOTIFIED) <==> !arrival_blocks(previous),
        arrival_blocks(previous) ==> action_for(state_after_registration(previous))
            == PollAction::Pending && aborts_on_drop(state_after_registration(previous)),
        !arrival_blocks(previous) ==> action_for(state_after_registration(previous))
            == PollAction::Ready && !aborts_on_drop(state_after_registration(previous)),
{
}

/// An arrival raises the counter by exactly one, whatever it held.
pub proof fn arrival_raises_by_one(s: FutexModel)
    ensures
        s.arrive().counter == s.counter + 1,
{
}

/// An arrival keeps the queue equal to the positive part of the counter.
pub proof fn arrival_keeps_accounting(s: FutexModel)
    requires
        s.accounted(),
    ensures
        s.arrive().accounted(),
        s.arrive().counter == s.counter + 1,
{
}

/// A notification of a non-negative amount keeps the queue equal to the positive
/// part of the counter, and never owes more wakeups than there are queued waiters:
/// a notifier never waits for a waiter that is not in the queue.
pub proof fn notification_keeps_accounting(s: FutexModel, amount: int)
    requires
        s.accounted(),
        amount >= 0,
    ensures
        s.notify(amount).accounted(),
        0 <= wakeups(s.counter, amount) <= s.queued,
{
}

/// A notification wakes no more waiters than it asked for and no more than were
/// registered, and exactly the smaller of the two when both are positive.
pub proof fn wakeups_are_bounded(previous: int, amount: int)
    ensures
        0 <= wakeups(previous, amount),
        amount >= 0 ==> wakeups(previous, amount) <= amount,
        wakeups(previous, amount) <= if previous > 0 {
            previous
        } else {
            0
        },
        previous > 0 && amount > 0 ==> (wakeups(previous, amount) == previous || wakeups(
            previous,
            amount,
        ) == amount),
{
}

/// Notifying one waiter is notifying many with a count of one: it wakes one
/// queued waiter exactly when the counter was positive.
pub proof fn notify_one_is_notify_many_of_one(previous: isize)
    ensures
        notify_amount(1) == 1,
        owed(previous, 1) == wakeups(previous as int, 1),
        owed(previous, 1) == if previous > 0 {
            1int
        } else {
            0int
        },
{
}

/// A notification of `count` lowers the counter by `count` whenever `count` fits
/// in a signed word.
pub proof fn amount_is_count_when_it_fits(count: usize)
    requires
        count <= isize::MAX,
    ensures
        notify_amount(count) == count,
{
}

/// A notification never raises the counter: whatever `count` it is given, it
/// lowers the counter by a non-negative amount, and it keeps the queue equal to
/// the positive part of the counter.
pub proof fn notification_never_raises_counter(s: FutexModel, count: usize)
    requires
        s.accounted(),
    ensures
        notify_amount(count) >= 0,
        s.notify(notify_amount(count) as int).counter <= s.counter,
        s.notify(notify_amount(count) as int).accounted(),
{
}

/// A notification of `count` waiters wakes every registered waiter, up to
/// `count`, whatever `count` is, including counts above `isize::MAX`.
pub proof fn notification_wakes_up_to_count(previous: isize, count: usize)
    ensures
        wakeups(previous as int, notify_amount(count) as int) == owed(previous, count),
        previous > 0 && previous < count ==> owed(previous, count) == previous,
        previous > 0 && previous >= count ==> owed(previous, count) == count,
        previous <= 0 ==> owed(previous, count) == 0,
{
}

/// Two notifications in a row wake as many waiters as one notification of their
/// sum would.
pub proof fn wakeups_compose(previous: int, a: int, b: int)
    requires
        a >= 0,
        b >= 0,
    ensures
        wakeups(previous, a) + wakeups(previous - a, b) == wakeups(previous, a + b),
{
}

/// Notifying `a` and then `b` waiters leaves the futex as notifying `a + b` at once.
pub proof fn notifications_compose(s: FutexModel, a: int, b: int)
    requires
        a >= 0,
        b >= 0,
    ensures
        s.notify(a).notify(b) == s.notify(a + b),
{
    wakeups_compose(s.counter, a, b);
}

/// Notifying `n` waiters at once leaves the futex as `n` notifications of one
/// waiter each, one after another.
pub proof fn notify_many_is_repeated_notify_one(s: FutexModel, n: nat)
    ensures
        s.notify_ones(n) == s.notify(n as int),
    decreases n,
{
    if n == 0 {
        assert(wakeups(s.counter, 0) == 0);
    } else {
        notify_many_is_repeated_notify_one(s, (n - 1) as nat);
        notifications_compose(s, (n - 1) as int, 1);
    }
}

/// A notification is never lost: one given while no waiter is queued stays in
/// the counter, and the waiter that arrives next does not block.
pub proof fn notification_without_waiter_is_stored(s: FutexModel, amount: int)
    requires
        s.accounted(),
        s.counter <= 0,
        amount > 0,
    ensures
        wakeups(s.counter, amount) == 0,
        s.notify(amount).queued == 0,
        !blocks(s.notify(amount).counter),
        s.notify(amount).arrive().queued == 0,
{
}

/// `n` arrivals at a futex with no stored notification queue all `n` waiters.
pub proof fn arrivals_queue_all(s: FutexModel, n: nat)
    requires
        s.accounted(),
        s.counter >= 0,
    ensures
        s.arrive_n(n).counter == s.counter + n,
        s.arrive_n(n).queued == s.queued + n,
        s.arrive_n(n).accounted(),
    decreases n,
{
    if n > 0 {
        arrivals_queue_all(s, (n - 1) as nat);
    }
}

/// `n` waiters that arrive at a futex with no stored notification are all woken
/// by a notification of `n`, which leaves the futex as it was.
pub proof fn balanced_round_restores(s: FutexModel, n: nat)
    requires
        s.accounted(),
        s.counter >= 0,
    ensures
        wakeups(s.arrive_n(n).counter, n as int) == n,
        s.arrive_n(n).notify(n as int) == s,
{
    arrivals_queue_all(s, n);
}

/// `n` waiters at a fresh futex notified with `n + extra`: all `n` are woken and
/// the `extra` notifications stay stored, as a counter of `-extra`.
pub proof fn surplus_notifications_are_stored(n: nat, extra: nat)
    ensures
        wakeups(FutexModel::fresh().arrive_n(n).counter, (n + extra) as int) == n,
        FutexModel::fresh().arrive_n(n).notify((n + extra) as int) == (FutexModel {
            counter: -extra,
            queued: 0,
        }),
{
    arrivals_queue_all(FutexModel::fresh(), n);
}

/// A future registers with the futex at most once: after its registration it is
/// waiting or notified, and neither state registers again.
pub proof fn registration_happens_once(previous: isize)
    ensures
        action_for(state_after_registration(previous)) != PollAction::Register,
        state_after_registration(previous) == WAITING || state_after_registration(previous)
            == NOTIFIED,
{
}

/// Once notified, a future is ready on every poll; while queued it is pending;
/// before its first poll it registers.
pub proof fn poll_states()
    ensures
        action_for(NOTIFIED) == PollAction::Ready,
        action_for(WAITING) == PollAction::Pending,
        action_for(UNPOLLED) == PollAction::Register,
{
}

/// Dropping a future aborts exactly when a poll of it would be pending, that is
/// while its waiter sits in the queue; an unpolled or notified future drops quietly.
pub proof fn drop_aborts_only_while_queued(state: isize)
    ensures
        aborts_on_drop(state) <==> action_for(state) == PollAction::Pending,
        !aborts_on_drop(UNPOLLED),
        !aborts_on_drop(NOTIFIED),
{
}

} // verus!
