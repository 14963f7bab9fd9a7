use catten::scheduler::round_robin::{Error as LpError, RoundRobin};
use catten::scheduler::system_scheduler::{get_thread_id, Error, Placement, SystemScheduler};
use catten::scheduler::threads::{Thread, ThreadState, ThreadTable};
use catten::scheduler::{abort, observe_thread_exit, sleep, spawn_thread, spawn_thread_on_lp, yield_lp};

fn two_lps(idle: bool) -> SystemScheduler {
    let mut sys = SystemScheduler::new();
    for lp in 0..2u32 {
        let mut sched = RoundRobin::new(lp, 1_000_000);
        if idle {
            sched.stop();
        }
        sys.set_lp_scheduler(lp, sched);
    }
    sys
}

#[test]
fn thread_table_reuses_first_free_slot() {
    let mut table = ThreadTable::new();
    let a = table.add_element(Thread::new(1, 0x1000));
    let b = table.add_element(Thread::new(1, 0x2000));
    assert_eq!((a, b), (0, 1));
    assert!(table.remove_element(a).is_some());
    assert!(table.remove_element(a).is_none());
    let c = table.add_element(Thread::new(2, 0x3000));
    assert_eq!(c, 0);
    assert_eq!(table.get(c).unwrap().state, ThreadState::NeedsLpAssignment);
    assert_eq!(table.len(), 2);
    assert!(table.get(9).is_none());
}

#[test]
fn spawn_balances_by_load_then_lowest_lp() {
    let mut sys = two_lps(false);
    let mut threads = ThreadTable::new();
    let (a, pa) = spawn_thread(&mut sys, &mut threads, 1, 0x1000, 0);
    let (b, pb) = spawn_thread(&mut sys, &mut threads, 1, 0x2000, 0);
    let (c, pc) = spawn_thread(&mut sys, &mut threads, 1, 0x3000, 0);
    assert_eq!((a, b, c), (0, 1, 2));
    assert_eq!(pa, Placement { lp_id: 0, send_ipi: false });
    assert_eq!(pb.lp_id, 1);
    assert_eq!(pc.lp_id, 0);
    assert_eq!(threads.get(a).unwrap().state, ThreadState::Ready(0));
    assert_eq!(threads.get(b).unwrap().state, ThreadState::Ready(1));
    assert!(sys.get_lp_scheduler(0).is_ctx_switch_pending());
    assert_eq!(sys.get_lp_scheduler(0).thread_count(), 2);
}

#[test]
fn idle_remote_processor_gets_interrupted() {
    let mut sys = two_lps(true);
    let mut threads = ThreadTable::new();
    let (_, p) = spawn_thread(&mut sys, &mut threads, 1, 0x1000, 1);
    assert_eq!(p, Placement { lp_id: 0, send_ipi: true });
    let (_, q) = spawn_thread_on_lp(&mut sys, &mut threads, 1, 0x1000, 1, 1);
    assert_eq!(q, Placement { lp_id: 1, send_ipi: false });
}

#[test]
fn pinned_thread_stays_on_its_processor() {
    let mut sys = two_lps(false);
    let mut threads = ThreadTable::new();
    for _ in 0..3 {
        let (tid, p) = spawn_thread_on_lp(&mut sys, &mut threads, 1, 0x1000, 1, 0);
        assert_eq!(p.lp_id, 1);
        assert_eq!(threads.get(tid).unwrap().affinity, Some(1));
    }
    assert_eq!(sys.get_lp_scheduler(1).thread_count(), 3);
    assert_eq!(sys.get_lp_scheduler(0).thread_count(), 0);
}

#[test]
fn affinity_to_unknown_processor_is_refused() {
    let mut sys = two_lps(false);
    let mut threads = ThreadTable::new();
    let tid = threads.add_element(Thread::new(1, 0x1000));
    threads.set_affinity(tid, Some(7));
    assert_eq!(sys.submit_ready_thread(&mut threads, tid, 0), Err(Error::InvalidThread));
    assert_eq!(sys.submit_ready_thread(&mut threads, 99, 0), Err(Error::InvalidThread));
}

#[test]
fn resubmitting_a_queued_thread_is_refused() {
    let mut sys = two_lps(false);
    let mut threads = ThreadTable::new();
    let (tid, _) = spawn_thread(&mut sys, &mut threads, 1, 0x1000, 0);
    assert_eq!(sys.submit_ready_thread(&mut threads, tid, 0), Err(Error::InvalidThread));
}

#[test]
fn round_robin_rotates() {
    let mut sched = RoundRobin::new(0, 10);
    let mut threads = ThreadTable::new();
    assert_eq!(sched.next(&mut threads), Err(LpError::NoRunnableThreads));
    let a = threads.add_element(Thread::new(1, 0x1000));
    let b = threads.add_element(Thread::new(1, 0x2000));
    assert_eq!(sched.add_thread(&mut threads, a), Ok(()));
    assert_eq!(sched.add_thread(&mut threads, b), Ok(()));
    assert_eq!(sched.add_thread(&mut threads, a), Err(LpError::ThreadAlreadyAssignedToLp));
    assert_eq!(sched.next(&mut threads), Ok(a));
    assert_eq!(threads.get(a).unwrap().state, ThreadState::Running(0));
    assert_eq!(sched.next(&mut threads), Ok(b));
    assert_eq!(threads.get(a).unwrap().state, ThreadState::Ready(0));
    assert_eq!(sched.next(&mut threads), Ok(a));
    assert_eq!(sched.get_tid(), Some(a));
    assert_eq!(sched.remove_thread(b), Ok(()));
    assert_eq!(sched.next(&mut threads), Ok(a));
    assert_eq!(sched.remove_thread(a), Ok(()));
    assert_eq!(sched.remove_thread(a), Err(LpError::ThreadNotAssignedToThisLp));
}

#[test]
fn blocked_thread_wakes_where_it_ran() {
    let mut sys = two_lps(false);
    let mut threads = ThreadTable::new();
    let (a, _) = spawn_thread_on_lp(&mut sys, &mut threads, 1, 0x1000, 0, 0);
    let (b, _) = spawn_thread_on_lp(&mut sys, &mut threads, 1, 0x2000, 0, 0);
    assert_eq!(sys.lp_schedulers[0].next(&mut threads), Ok(a));
    assert_eq!(get_thread_id(&sys, 0), Some(a));
    assert_eq!(sys.prepare_to_block(&mut threads, b, 0).unwrap_err(), Error::InvalidThread);
    let waker = sys.prepare_to_block(&mut threads, a, 0).unwrap();
    assert_eq!(sys.prepare_to_block(&mut threads, a, 0).unwrap_err(), Error::AlreadyBlocked);
    assert!(matches!(threads.get(a).unwrap().state, ThreadState::Blocked(_)));
    assert_eq!(sys.lp_schedulers[0].next(&mut threads), Ok(b));
    assert!(!sys.wake_thread(&mut threads, &waker, 0));
    assert_eq!(threads.get(a).unwrap().state, ThreadState::Ready(0));
    assert_eq!(sys.lp_schedulers[0].next(&mut threads), Ok(a));
}

#[test]
fn wake_racing_with_parking_resumes_in_place() {
    let mut sys = two_lps(true);
    let mut threads = ThreadTable::new();
    let (a, _) = spawn_thread_on_lp(&mut sys, &mut threads, 1, 0x1000, 1, 1);
    sys.lp_schedulers[1].stop();
    assert_eq!(sys.lp_schedulers[1].next(&mut threads), Ok(a));
    sys.lp_schedulers[1].stop();
    let waker = sys.prepare_to_block(&mut threads, a, 1).unwrap();
    assert!(sys.wake_thread(&mut threads, &waker, 0));
    assert_eq!(threads.get(a).unwrap().state, ThreadState::Running(1));
    assert_eq!(sys.get_lp_scheduler(1).thread_count(), 1);
}

#[test]
fn late_notification_does_not_wake_a_later_wait() {
    let mut sys = two_lps(false);
    let mut threads = ThreadTable::new();
    let (a, _) = spawn_thread_on_lp(&mut sys, &mut threads, 1, 0x1000, 0, 0);
    assert_eq!(sys.lp_schedulers[0].next(&mut threads), Ok(a));
    let first = sys.prepare_to_block(&mut threads, a, 0).unwrap();
    assert!(!sys.wake_thread(&mut threads, &first, 0));
    let second = sys.prepare_to_block(&mut threads, a, 0).unwrap();
    assert_ne!(first.registration, second.registration);
    assert!(!sys.wake_thread(&mut threads, &first, 0));
    assert!(matches!(threads.get(a).unwrap().state, ThreadState::Blocked(_)));
}

#[test]
fn abort_removes_thread_everywhere() {
    let mut sys = two_lps(false);
    let mut threads = ThreadTable::new();
    let (a, _) = spawn_thread_on_lp(&mut sys, &mut threads, 1, 0x1000, 0, 0);
    let (b, _) = spawn_thread_on_lp(&mut sys, &mut threads, 1, 0x2000, 0, 0);
    assert_eq!(sys.abort_thread(&mut threads, b), Ok(b));
    assert!(threads.get(b).is_none());
    assert_eq!(sys.get_lp_scheduler(0).thread_count(), 1);
    assert_eq!(sys.abort_thread(&mut threads, b), Err(Error::InvalidThread));
    assert_eq!(sys.lp_schedulers[0].next(&mut threads), Ok(a));
    assert_eq!(abort(&mut sys, &mut threads, 0), Some(a));
    assert!(threads.get(a).is_none());
    assert_eq!(sys.get_lp_scheduler(0).get_tid(), None);
    assert!(sys.get_lp_scheduler(0).is_ctx_switch_pending());
    assert_eq!(abort(&mut sys, &mut threads, 0), None);
}

#[test]
fn abort_address_space() {
    let mut sys = two_lps(false);
    let mut threads = ThreadTable::new();
    let (a, _) = spawn_thread(&mut sys, &mut threads, 5, 0x1000, 0);
    let (b, _) = spawn_thread(&mut sys, &mut threads, 6, 0x2000, 0);
    let (c, _) = spawn_thread(&mut sys, &mut threads, 5, 0x3000, 0);
    sys.abort_as_threads(&mut threads, 5);
    assert!(threads.get(a).is_none());
    assert!(threads.get(c).is_none());
    assert_eq!(threads.get(b).unwrap().asid, 6);
    assert_eq!(sys.get_lp_scheduler(0).thread_count() + sys.get_lp_scheduler(1).thread_count(), 1);
}

#[test]
fn yield_marks_switch_pending() {
    let mut sys = two_lps(false);
    assert!(!sys.get_lp_scheduler(1).is_ctx_switch_pending());
    yield_lp(&mut sys, 1);
    assert!(sys.get_lp_scheduler(1).is_ctx_switch_pending());
    assert!(!sys.get_lp_scheduler(0).is_ctx_switch_pending());
}

#[test]
fn replacing_a_processor_scheduler() {
    let mut sys = two_lps(false);
    sys.set_lp_scheduler(1, RoundRobin::new(1, 5));
    assert_eq!(sys.lp_schedulers.len(), 2);
    assert_eq!(sys.get_lp_scheduler(1).quantum, 5);
    assert_eq!(get_thread_id(&sys, 3), None);
}

#[test]
fn sleep_and_exit_observers() {
    assert!(sleep(0).is_none());
    assert!(sleep(2_000_000_000).is_some());
    let mut threads = ThreadTable::new();
    let tid = threads.add_element(Thread::new(1, 0x1000));
    assert_eq!(observe_thread_exit(&mut threads, tid, 77), Ok(()));
    assert_eq!(observe_thread_exit(&mut threads, tid + 1, 78), Err(Error::InvalidThread));
}

#[test]
fn removing_a_queued_thread_undoes_adding_it() {
    let mut sched = RoundRobin::new(0, 10);
    let mut threads = ThreadTable::new();
    let a = threads.add_element(Thread::new(1, 0x1000));
    let b = threads.add_element(Thread::new(1, 0x2000));
    assert_eq!(sched.add_thread(&mut threads, a), Ok(()));
    let before = sched.run_queue.clone();
    assert_eq!(sched.add_thread(&mut threads, b), Ok(()));
    assert_eq!(sched.remove_thread(b), Ok(()));
    assert_eq!(sched.run_queue, before);
}

#[test]
fn processors_with_a_scheduler() {
    let mut sys = SystemScheduler::new();
    assert!(!sys.has_lp_scheduler(0));
    sys.set_lp_scheduler(1, RoundRobin::new(1, 1_000_000));
    assert!(sys.has_lp_scheduler(1));
    assert!(!sys.has_lp_scheduler(0));
    assert!(two_lps(false).has_lp_scheduler(0));
}
