# hybridfutex

A synchronization primitive on which threads (`wait_sync`) and async tasks
(`wait_async`) wait until another thread notifies them (`notify_one`,
`notify_many`). A counter holds the registered waiters minus the handed-out
notifications; waiters that must block sit in a lock-free queue
(`crossbeam_queue::SegQueue`).

- `src/` is the verified library: the counter protocol and the wait-future
  state machine with exact contracts (`protocol`), the futex generic over its
  waiter type (`futex`), and the protocol's laws (`laws`).
- `app/` supplies the concrete waiters: parking and unparking threads, waking
  tasks, and the `Future` and `Drop` impls of the wait future.
- `tests/` drives the futex from one thread with plain numbers as waiters.
