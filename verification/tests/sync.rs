use catten::int_state::IntState;
use catten::mutex::MutexCore;
use catten::rwlock::RwLockCore;
use catten::scheduler::threads::Waker;
use catten::semaphore::{notify_deadline, wait_succeeded, Semaphore, WaitResult, WaitStart};
use catten::work_queue::{Queue, QUEUE_CAPACITY};

#[test]
fn event_counts_signals() {
    let mut event = Semaphore::new(0);
    let mut registrations: Vec<Option<WaitResult>> = Vec::new();
    assert!(!event.try_wait());
    assert_eq!(event.signal(&mut registrations), None);
    assert_eq!(event.signal(&mut registrations), None);
    assert!(event.try_wait());
    assert!(event.try_wait());
    assert!(!event.try_wait());
    assert_eq!(event.signal(&mut registrations), None);
    event.reset();
    assert!(!event.try_wait());
}

#[test]
fn wait_with_passed_deadline_times_out() {
    let mut event = Semaphore::new(0);
    let registrations: Vec<Option<WaitResult>> = Vec::new();
    assert_eq!(event.begin_wait(true, &registrations), WaitStart::TimedOut);
    assert_eq!(event.begin_wait(false, &registrations), WaitStart::Block);
    let mut available = Semaphore::new(1);
    assert_eq!(available.begin_wait(false, &registrations), WaitStart::Acquired);
    assert_eq!(available.begin_wait(true, &registrations), WaitStart::TimedOut);
}

#[test]
fn signal_hands_count_to_first_pending_waiter() {
    let mut sem = Semaphore::new(0);
    let mut registrations = vec![Some(WaitResult::TimedOut), Some(WaitResult::Pending), Some(WaitResult::Pending)];
    sem.register(0);
    sem.register(1);
    sem.register(2);
    assert_eq!(sem.signal(&mut registrations), Some(1));
    assert_eq!(registrations[1], Some(WaitResult::Signaled));
    assert!(!sem.try_wait());
    assert_eq!(sem.signal(&mut registrations), Some(2));
    assert_eq!(sem.signal(&mut registrations), None);
    assert!(sem.try_wait());
}

#[test]
fn begin_wait_drops_stale_registrations() {
    let mut sem = Semaphore::new(0);
    let mut registrations = vec![Some(WaitResult::TimedOut), None, Some(WaitResult::Pending)];
    sem.register(0);
    sem.register(1);
    sem.register(2);
    assert_eq!(sem.begin_wait(false, &registrations), WaitStart::Block);
    registrations[2] = Some(WaitResult::TimedOut);
    assert_eq!(sem.signal(&mut registrations), None);
    assert!(sem.try_wait());
}

#[test]
fn deadline_and_signal_win_once() {
    let mut registration = Some(WaitResult::Pending);
    assert!(notify_deadline(&mut registration));
    assert_eq!(registration, Some(WaitResult::TimedOut));
    assert!(!notify_deadline(&mut registration));
    let mut signaled = Some(WaitResult::Signaled);
    assert!(!notify_deadline(&mut signaled));
    assert_eq!(signaled, Some(WaitResult::Signaled));
    assert!(wait_succeeded(WaitResult::Signaled));
    assert!(!wait_succeeded(WaitResult::TimedOut));
}

#[test]
fn mutex_try_lock_twice_times_out() {
    let mut mutex = MutexCore::new();
    let mut registrations: Vec<Option<WaitResult>> = Vec::new();
    assert!(!mutex.is_locked());
    assert!(mutex.try_lock());
    assert!(mutex.is_locked());
    assert!(!mutex.try_lock());
    assert_eq!(mutex.begin_lock(true, &registrations), WaitStart::TimedOut);
    assert_eq!(mutex.unlock(&mut registrations), None);
    assert!(!mutex.is_locked());
    assert_eq!(mutex.begin_lock(false, &registrations), WaitStart::Acquired);
    assert!(mutex.is_locked());
}

#[test]
fn mutex_hands_over_to_waiter() {
    let mut mutex = MutexCore::default();
    let mut registrations = vec![Some(WaitResult::Pending)];
    assert!(mutex.try_lock());
    assert_eq!(mutex.begin_lock(false, &registrations), WaitStart::Block);
    mutex.register_waiter(0);
    assert_eq!(mutex.unlock(&mut registrations), Some(0));
    assert!(!mutex.is_locked());
    assert!(mutex.finish_lock(registrations[0].unwrap()));
    assert!(mutex.is_locked());
    assert!(!mutex.try_lock());
}

#[test]
fn rwlock_readers_share_writers_exclude() {
    let mut lock = RwLockCore::new();
    assert!(lock.try_lock_shared());
    assert!(lock.try_lock_shared());
    assert!(!lock.try_lock_exclusive());
    assert!(lock.unlock_shared().is_empty());
    assert!(lock.unlock_shared().is_empty());
    assert!(lock.try_lock_exclusive());
    assert!(!lock.try_lock_shared());
    assert!(!lock.try_lock_exclusive());
    assert!(lock.unlock_exclusive().is_empty());
    assert!(lock.try_lock_shared());
}

#[test]
fn rwlock_wakes_one_writer_before_readers() {
    let mut lock = RwLockCore::new();
    assert!(lock.try_lock_exclusive());
    lock.wait_shared(10);
    lock.wait_exclusive(20);
    lock.wait_shared(11);
    lock.wait_exclusive(21);
    assert_eq!(lock.unlock_exclusive(), vec![20]);
    assert!(lock.try_lock_exclusive());
    assert_eq!(lock.unlock_exclusive(), vec![21]);
    assert!(lock.try_lock_exclusive());
    assert_eq!(lock.unlock_exclusive(), vec![10, 11]);
    assert!(lock.wake_next().is_empty());
}

#[test]
fn nested_interrupt_saves() {
    let mut state = IntState::new(2);
    state.save_int(0, true);
    state.save_int(0, false);
    state.save_int(1, false);
    assert!(!state.restore_int(0));
    assert!(state.restore_int(0));
    assert!(!state.restore_int(1));
}

#[test]
fn work_queue_is_fifo_and_bounded() {
    let mut queue: Queue<u32> = Queue::new();
    assert_eq!(queue.pop(), None);
    assert!(queue.push(1));
    assert!(queue.push(2));
    assert_eq!(queue.len(), 2);
    assert_eq!(queue.pop(), Some(1));
    assert!(queue.push(3));
    assert_eq!(queue.pop(), Some(2));
    assert_eq!(queue.pop(), Some(3));
    assert_eq!(queue.pop(), None);
    for i in 0..QUEUE_CAPACITY {
        assert!(queue.push(i as u32));
    }
    assert!(!queue.push(9999));
    assert_eq!(queue.len(), QUEUE_CAPACITY);
    assert_eq!(queue.pop(), Some(0));
}

#[test]
fn waker_wakes_once() {
    let mut waker = Waker::new(3, 1, 42);
    assert!(waker.notify());
    assert!(!waker.notify());
    assert_eq!((waker.thread_id, waker.lp_id, waker.registration), (3, 1, 42));
}

use catten::uacpi_host::UacpiStatus;
use catten::work_queue::{work_completion_status, Work, WorkKind, WorkQueues};

#[test]
fn deferred_work_scheduling() {
    let mut queues = WorkQueues::new();
    assert_eq!(queues.schedule_work(Some(WorkKind::GpeExecution), Some(0x10), 1, false), UacpiStatus::InitLevelMismatch);
    assert_eq!(queues.schedule_work(None, Some(0x10), 1, true), UacpiStatus::InvalidArgument);
    assert_eq!(queues.schedule_work(Some(WorkKind::Notification), None, 1, true), UacpiStatus::InvalidArgument);
    assert_eq!(queues.schedule_work(Some(WorkKind::GpeExecution), Some(0x10), 1, true), UacpiStatus::Success);
    assert_eq!(queues.schedule_work(Some(WorkKind::Notification), Some(0x20), 2, true), UacpiStatus::Success);
    assert_eq!(queues.outstanding(), 2);
    assert_eq!(queues.take_work(WorkKind::Notification), Some(Work { handler: 0x20, context: 2 }));
    assert_eq!(queues.take_work(WorkKind::Notification), None);
    assert_eq!(queues.outstanding(), 2);
    queues.complete_work();
    assert_eq!(queues.take_work(WorkKind::GpeExecution), Some(Work { handler: 0x10, context: 1 }));
    queues.complete_work();
    assert_eq!(queues.outstanding(), 0);
}

#[test]
fn deferred_work_queue_full() {
    let mut queues = WorkQueues::new();
    for i in 0..QUEUE_CAPACITY {
        assert_eq!(queues.schedule_work(Some(WorkKind::GpeExecution), Some(0x10), i, true), UacpiStatus::Success);
    }
    assert_eq!(queues.schedule_work(Some(WorkKind::GpeExecution), Some(0x10), 0, true), UacpiStatus::OutOfMemory);
    assert_eq!(queues.schedule_work(Some(WorkKind::Notification), Some(0x10), 0, true), UacpiStatus::Success);
    assert_eq!(queues.outstanding(), QUEUE_CAPACITY + 1);
}

#[test]
fn waiting_for_work_in_interrupt_context() {
    assert_eq!(work_completion_status(1), Some(UacpiStatus::InvalidArgument));
    assert_eq!(work_completion_status(0), None);
}

#[test]
fn timed_out_waiter_is_not_signaled() {
    let mut sem = Semaphore::new(0);
    let mut registrations = vec![Some(WaitResult::Pending), Some(WaitResult::Pending)];
    sem.register(0);
    sem.register(1);
    assert!(notify_deadline(&mut registrations[0]));
    assert_eq!(sem.signal(&mut registrations), Some(1));
    assert!(!notify_deadline(&mut registrations[1]));
    assert_eq!(registrations, vec![Some(WaitResult::TimedOut), Some(WaitResult::Signaled)]);
}
