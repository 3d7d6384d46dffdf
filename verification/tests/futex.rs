use hybridfutex::futex::{signal_notified, HybridFutex, PollOutcome};
use hybridfutex::protocol::{NOTIFIED, UNPOLLED, WAITING};

// A waiter here is a plain number: these tests drive the futex from one thread,
// taking the place of the threads that would block and wake.

fn arrive_and_queue(futex: &HybridFutex<u32>, id: u32) -> bool {
    let arrival = futex.register_wait();
    if arrival.must_block {
        futex.enqueue(id);
    }
    arrival.must_block
}

fn wake_owed(futex: &HybridFutex<u32>, owed: usize) -> Vec<u32> {
    let mut woken = Vec::new();
    for _ in 0..owed {
        woken.push(futex.take_waiter().expect("an owed waiter is in the queue"));
    }
    woken
}

#[test]
fn new_futex_has_zero_counter_and_empty_queue() {
    let futex: HybridFutex<u32> = HybridFutex::new();
    assert_eq!(futex.get_counter(), 0);
    assert_eq!(futex.take_waiter(), None);
}

#[test]
fn test_wait_sync() {
    let futex: HybridFutex<u32> = HybridFutex::new();
    assert!(arrive_and_queue(&futex, 7));
    assert_eq!(futex.get_counter(), 1);

    let claim = futex.notify_one();
    assert_eq!(claim.previous, 1);
    assert_eq!(claim.wakeups, 1);
    assert_eq!(wake_owed(&futex, claim.wakeups), vec![7]);
    assert_eq!(futex.get_counter(), 0);
}

#[test]
fn test_wait_sync_delayed() {
    let futex: HybridFutex<u32> = HybridFutex::new();
    let claim = futex.notify_one();
    assert_eq!(claim.previous, 0);
    assert_eq!(claim.wakeups, 0);
    assert_eq!(futex.get_counter(), -1);

    // The stored notification is there for the waiter that comes next.
    let arrival = futex.register_wait();
    assert_eq!(arrival.previous, -1);
    assert!(!arrival.must_block);
    assert_eq!(futex.get_counter(), 0);
    assert_eq!(futex.take_waiter(), None);
}

#[test]
fn test_wait_async() {
    let futex: HybridFutex<u32> = HybridFutex::new();
    let fut = futex.wait_async();

    let first = fut.poll_step();
    assert_eq!(first.observed, UNPOLLED);
    assert_eq!(first.outcome, PollOutcome::Enqueue);
    let arrival = first.arrival.expect("the first poll registers");
    assert_eq!(arrival.previous, 0);
    assert!(arrival.must_block);
    futex.enqueue(1);

    let again = fut.poll_step();
    assert_eq!(again.observed, WAITING);
    assert!(again.arrival.is_none());
    assert_eq!(again.outcome, PollOutcome::Pending);
    assert!(fut.check_drop().1);

    let claim = futex.notify_one();
    assert_eq!(claim.wakeups, 1);
    assert_eq!(wake_owed(&futex, 1), vec![1]);
    signal_notified(fut.state_cell());

    let last = fut.poll_step();
    assert_eq!(last.observed, NOTIFIED);
    assert_eq!(last.outcome, PollOutcome::Ready);
    assert_eq!(fut.check_drop(), (NOTIFIED, false));
    assert_eq!(futex.get_counter(), 0);
}

#[test]
fn test_wait_async_delayed() {
    let futex: HybridFutex<u32> = HybridFutex::new();
    let fut = futex.wait_async();
    let claim = futex.notify_one();
    assert_eq!(claim.wakeups, 0);

    let first = fut.poll_step();
    assert_eq!(first.outcome, PollOutcome::Ready);
    let arrival = first.arrival.expect("the first poll registers");
    assert_eq!(arrival.previous, -1);
    assert!(!arrival.must_block);

    // Ready for good, without touching the counter again.
    let again = fut.poll_step();
    assert_eq!(again.observed, NOTIFIED);
    assert!(again.arrival.is_none());
    assert_eq!(again.outcome, PollOutcome::Ready);
    assert_eq!(futex.get_counter(), 0);
}

#[test]
fn test_wait_async_drop() {
    let futex: HybridFutex<u32> = HybridFutex::new();
    let fut = futex.wait_async();
    assert_eq!(fut.check_drop(), (UNPOLLED, false));
    drop(fut);
    assert_eq!(futex.get_counter(), 0);
}

#[test]
fn test_wake_empty() {
    let futex: HybridFutex<u32> = HybridFutex::new();
    let claim = futex.notify_one();
    assert_eq!(claim.wakeups, 0);
    assert_eq!(futex.get_counter(), -1);
}

#[test]
fn test_notify_many() {
    let futex: HybridFutex<u32> = HybridFutex::new();
    let num_waiters: usize = 5;
    for id in 0..num_waiters as u32 {
        assert!(arrive_and_queue(&futex, id));
    }

    let claim = futex.notify_many(num_waiters);
    assert_eq!(claim.previous, 5);
    assert_eq!(claim.wakeups, 5);
    assert_eq!(wake_owed(&futex, claim.wakeups), vec![0, 1, 2, 3, 4]);

    assert_eq!(futex.get_counter(), 0);
}

#[test]
fn test_notify_many_with_more_count_than_waiters() {
    let futex: HybridFutex<u32> = HybridFutex::new();
    let num_waiters: usize = 5;
    for id in 0..num_waiters as u32 {
        assert!(arrive_and_queue(&futex, id));
    }

    let claim = futex.notify_many(num_waiters + 2);
    assert_eq!(claim.wakeups, 5);
    assert_eq!(wake_owed(&futex, claim.wakeups).len(), 5);
    assert_eq!(futex.take_waiter(), None);

    assert_eq!(futex.get_counter(), -2);
}

#[test]
fn test_notify_many_with_dropped_waiters() {
    let futex: HybridFutex<u32> = HybridFutex::new();
    let num_waiters: usize = 5;
    for _ in 0..num_waiters {
        let fut = futex.wait_async();
        drop(fut);
    }

    let claim = futex.notify_many(num_waiters);
    assert_eq!(claim.wakeups, 0);

    assert_eq!(futex.get_counter(), -(num_waiters as isize));
}

#[test]
fn notify_many_with_fewer_count_than_waiters_leaves_the_rest_queued() {
    let futex: HybridFutex<u32> = HybridFutex::new();
    for id in 0..4 {
        assert!(arrive_and_queue(&futex, id));
    }
    let claim = futex.notify_many(3);
    assert_eq!(claim.wakeups, 3);
    assert_eq!(wake_owed(&futex, 3), vec![0, 1, 2]);
    assert_eq!(futex.get_counter(), 1);
    assert_eq!(futex.take_waiter(), Some(3));
}

#[test]
fn notify_many_of_zero_does_nothing() {
    let futex: HybridFutex<u32> = HybridFutex::new();
    assert!(arrive_and_queue(&futex, 9));
    let claim = futex.notify_many(0);
    assert_eq!(claim.previous, 1);
    assert_eq!(claim.wakeups, 0);
    assert_eq!(futex.get_counter(), 1);
}

#[test]
fn notify_many_beyond_signed_range_wakes_all_and_lowers_the_counter() {
    // A count above isize::MAX wakes every registered waiter and never raises the counter.
    let futex: HybridFutex<u32> = HybridFutex::new();
    assert!(arrive_and_queue(&futex, 1));
    assert!(arrive_and_queue(&futex, 2));
    let claim = futex.notify_many(usize::MAX);
    assert_eq!(claim.previous, 2);
    assert_eq!(claim.wakeups, 2);
    assert_eq!(wake_owed(&futex, claim.wakeups), vec![1, 2]);
    assert_eq!(futex.get_counter(), 2 - isize::MAX);
    assert!(!futex.register_wait().must_block);
}

#[test]
fn two_notifications_match_one_of_their_sum() {
    let split: HybridFutex<u32> = HybridFutex::new();
    let joined: HybridFutex<u32> = HybridFutex::new();
    for id in 0..5 {
        assert!(arrive_and_queue(&split, id));
        assert!(arrive_and_queue(&joined, id));
    }
    let first = split.notify_many(2);
    let second = split.notify_many(4);
    let whole = joined.notify_many(6);
    assert_eq!(first.wakeups + second.wakeups, whole.wakeups);
    assert_eq!(whole.wakeups, 5);
    assert_eq!(split.get_counter(), joined.get_counter());
    assert_eq!(split.get_counter(), -1);
}

#[test]
fn notify_many_matches_repeated_notify_one() {
    let many: HybridFutex<u32> = HybridFutex::new();
    let ones: HybridFutex<u32> = HybridFutex::new();
    for id in 0..3 {
        assert!(arrive_and_queue(&many, id));
        assert!(arrive_and_queue(&ones, id));
    }
    let claim = many.notify_many(4);
    let mut woken = 0;
    for _ in 0..4 {
        woken += ones.notify_one().wakeups;
    }
    assert_eq!(claim.wakeups, woken);
    assert_eq!(many.get_counter(), ones.get_counter());
    assert_eq!(wake_owed(&many, claim.wakeups), wake_owed(&ones, woken));
}

#[test]
fn stored_notifications_serve_later_waiters() {
    let futex: HybridFutex<u32> = HybridFutex::new();
    let claim = futex.notify_many(2);
    assert_eq!(claim.wakeups, 0);
    assert!(!arrive_and_queue(&futex, 1));
    assert!(!arrive_and_queue(&futex, 2));
    assert!(arrive_and_queue(&futex, 3));
    assert_eq!(futex.get_counter(), 1);
    assert_eq!(futex.take_waiter(), Some(3));
}
