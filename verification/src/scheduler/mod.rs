//! Thread scheduling: the thread table, the per-processor round-robin schedulers and the system
//! scheduler that assigns threads to processors.
use vstd::prelude::*;

pub mod round_robin;
pub mod system_scheduler;
pub mod threads;

use crate::interrupt_routing::LpId;
use crate::scheduler::round_robin::{rr_remove, rr_wf, state_of, valid_thread, with_state, RoundRobinView};
use crate::scheduler::system_scheduler::{
    abortable, lemma_after_abort_shape, lemma_lp_index, lemma_lp_index_same_ids, lemma_new_thread_keeps_wf,
    lemma_wf_abortable, least_loaded, lp_index, schedulers_after_abort, system_wf, Error, Placement,
    SystemScheduler,
};
use crate::scheduler::threads::{
    first_free, lemma_first_free, AddressSpaceId, ObserverId, Thread, ThreadId, ThreadState, ThreadTable,
};
use crate::semaphore::Semaphore;

verus! {

/// The table after storing `thread` in its first free slot, or in a new slot at the end.
pub open spec fn with_new_thread(threads: Seq<Option<Thread>>, thread: Thread) -> Seq<Option<Thread>> {
    match first_free(threads) {
        Some(i) => threads.update(i, Some(thread)),
        None => threads.push(Some(thread)),
    }
}

/// The ID the table gives to its next thread.
pub open spec fn next_thread_id(threads: Seq<Option<Thread>>) -> int {
    match first_free(threads) {
        Some(i) => i,
        None => threads.len() as int,
    }
}

/// Creates a thread of address space `asid` that starts at `entry_point`, and submits it to the
/// least loaded processor. Returns its ID and where it went.
pub fn spawn_thread(
    sys: &mut SystemScheduler,
    threads: &mut ThreadTable,
    asid: AddressSpaceId,
    entry_point: usize,
    current_lp: LpId,
) -> (r: (ThreadId, Placement))
    requires
        old(sys).lp_schedulers@.len() > 0,
        system_wf(old(sys).views(), old(threads)@),
        old(threads)@.len() + 1 < usize::MAX,
    ensures
        ({
            let thread = Thread { asid, entry_point, affinity: None, state: ThreadState::NeedsLpAssignment };
            let tid = r.0;
            let i = choose|i: int| least_loaded(old(sys).views(), i);
            let s = old(sys).views()[i];
            &&& tid == next_thread_id(old(threads)@)
            &&& least_loaded(old(sys).views(), i)
            &&& r.1 == (Placement { lp_id: s.lp_id, send_ipi: s.is_idle && s.lp_id != current_lp })
            &&& final(threads)@ == with_state(with_new_thread(old(threads)@, thread), tid, ThreadState::Ready(s.lp_id))
            &&& final(sys).views() == old(sys).views().update(i, RoundRobinView { ctx_switch_pending: true, queue: s.queue.push(tid), ..s })
        }),
        system_wf(final(sys).views(), final(threads)@),
        final(threads).observers() == old(threads).observers(),
{
    let thread = Thread::new(asid, entry_point);
    proof {
        lemma_new_thread_keeps_wf(sys.views(), threads@, thread);
    }
    let ghost before = threads@;
    let tid = threads.add_element(thread);
    proof {
        lemma_first_free(before);
        assert(threads@ == with_new_thread(before, thread));
        assert(threads@[tid as int] == Some(thread));
        assert(valid_thread(threads@, tid));
    }
    let placed = sys.submit_ready_thread(threads, tid, current_lp);
    assert(placed is Ok);
    match placed {
        Ok(p) => (tid, p),
        Err(_) => (tid, Placement { lp_id: current_lp, send_ipi: false }),
    }
}

/// Creates a thread of address space `asid` that starts at `entry_point` and always runs on
/// processor `lp_id`. Returns its ID and where it went.
pub fn spawn_thread_on_lp(
    sys: &mut SystemScheduler,
    threads: &mut ThreadTable,
    asid: AddressSpaceId,
    entry_point: usize,
    lp_id: LpId,
    current_lp: LpId,
) -> (r: (ThreadId, Placement))
    requires
        lp_index(old(sys).views(), lp_id) is Some,
        system_wf(old(sys).views(), old(threads)@),
        old(threads)@.len() + 1 < usize::MAX,
    ensures
        ({
            let thread = Thread { asid, entry_point, affinity: Some(lp_id), state: ThreadState::NeedsLpAssignment };
            let tid = r.0;
            let i = lp_index(old(sys).views(), lp_id)->0;
            let s = old(sys).views()[i];
            &&& tid == next_thread_id(old(threads)@)
            &&& r.1 == (Placement { lp_id, send_ipi: s.is_idle && lp_id != current_lp })
            &&& final(threads)@ == with_state(with_new_thread(old(threads)@, thread), tid, ThreadState::Ready(lp_id))
            &&& final(sys).views() == old(sys).views().update(i, RoundRobinView { ctx_switch_pending: true, queue: s.queue.push(tid), ..s })
        }),
        system_wf(final(sys).views(), final(threads)@),
        final(threads).observers() == old(threads).observers(),
{
    let mut thread = Thread::new(asid, entry_point);
    thread.affinity = Some(lp_id);
    proof {
        lemma_new_thread_keeps_wf(sys.views(), threads@, thread);
        lemma_lp_index(sys.views(), lp_id);
    }
    let ghost before = threads@;
    let tid = threads.add_element(thread);
    proof {
        lemma_first_free(before);
        assert(threads@ == with_new_thread(before, thread));
        assert(threads@[tid as int] == Some(thread));
        assert(valid_thread(threads@, tid));
    }
    let placed = sys.submit_ready_thread(threads, tid, current_lp);
    assert(placed is Ok);
    match placed {
        Ok(p) => (tid, p),
        Err(_) => (tid, Placement { lp_id, send_ipi: false }),
    }
}

/// Asks the current processor to switch threads; the caller then yields it.
pub fn yield_lp(sys: &mut SystemScheduler, current_lp: LpId)
    requires
        lp_index(old(sys).views(), current_lp) is Some,
    ensures
        ({
            let i = lp_index(old(sys).views(), current_lp)->0;
            final(sys).views() == old(sys).views().update(i, RoundRobinView { ctx_switch_pending: true, ..old(sys).views()[i] })
        }),
        forall|threads: Seq<Option<Thread>>| system_wf(old(sys).views(), threads) ==> #[trigger] system_wf(final(sys).views(), threads),
        final(sys).next_registration == old(sys).next_registration,
{
    proof {
        lemma_lp_index(sys.views(), current_lp);
    }
    let ghost old_views = sys.views();
    let i = find_scheduler(sys, current_lp);
    sys.mark_switch_pending(i);
    proof {
        let new_views = sys.views();
        assert(forall|k: int| 0 <= k < old_views.len() ==> (#[trigger] new_views[k]).lp_id == old_views[k].lp_id);
        lemma_lp_index_same_ids(old_views, new_views);
        assert forall|threads: Seq<Option<Thread>>| system_wf(old_views, threads) implies #[trigger] system_wf(new_views, threads) by {
            assert forall|j: int| 0 <= j < new_views.len() implies rr_wf(#[trigger] new_views[j], threads) by {
                assert(rr_wf(old_views[j], threads));
            }
        }
    }
}

/// The position of the scheduler of processor `lp`, which has one.
fn find_scheduler(sys: &SystemScheduler, lp: LpId) -> (i: usize)
    requires
        lp_index(sys.views(), lp) is Some,
    ensures
        i == lp_index(sys.views(), lp)->0,
        i < sys.lp_schedulers@.len(),
{
    match sys.find_lp(lp) {
        Some(i) => i,
        None => 0,
    }
}

/// Aborts the thread the current processor runs, if any, and asks the processor to switch; the
/// caller then yields it for good. Returns the aborted thread.
pub fn abort(sys: &mut SystemScheduler, threads: &mut ThreadTable, current_lp: LpId) -> (r: Option<ThreadId>)
    requires
        lp_index(old(sys).views(), current_lp) is Some,
        abortable(old(sys).views(), old(threads)@),
        old(sys).views()[lp_index(old(sys).views(), current_lp)->0].current matches Some(t)
            ==> valid_thread(old(threads)@, t),
    ensures
        r == old(sys).views()[lp_index(old(sys).views(), current_lp)->0].current,
        ({
            let mid = match r {
                Some(t) => schedulers_after_abort(old(sys).views(), old(threads)@, t),
                None => old(sys).views(),
            };
            let i = lp_index(mid, current_lp)->0;
            &&& lp_index(mid, current_lp) == lp_index(old(sys).views(), current_lp)
            &&& final(sys).views() == mid.update(i, RoundRobinView { ctx_switch_pending: true, ..mid[i] })
        }),
        r matches Some(t) ==> final(threads)@ == old(threads)@.update(t as int, None),
        r is None ==> final(threads)@ == old(threads)@,
        abortable(final(sys).views(), final(threads)@),
        final(threads).observers() == old(threads).observers(),
{
    let ghost old_views = sys.views();
    let ghost old_threads = threads@;
    let i = find_scheduler(sys, current_lp);
    let current = sys.lp_schedulers[i].get_tid();
    if let Some(tid) = current {
        let aborted = sys.abort_thread(threads, tid);
        assert(aborted is Ok);
        proof {
            lemma_after_abort_shape(old_views, old_threads, tid);
        }
    }
    let ghost mid = sys.views();
    assert(lp_index(mid, current_lp) == lp_index(old_views, current_lp));
    let j = find_scheduler(sys, current_lp);
    sys.mark_switch_pending(j);
    proof {
        let new_views = sys.views();
        assert(forall|k: int| 0 <= k < mid.len() ==> (#[trigger] new_views[k]).lp_id == mid[k].lp_id
            && new_views[k].queue == mid[k].queue && new_views[k].current == mid[k].current);
        lemma_lp_index_same_ids(mid, new_views);
        assert forall|t: ThreadId| #[trigger] valid_thread(threads@, t) implies match state_of(threads@, t) {
            ThreadState::Running(lp) => lp_index(new_views, lp) is Some && rr_remove(new_views[lp_index(new_views, lp)->0], t).0 is Ok,
            ThreadState::Ready(lp) => lp_index(new_views, lp) is Some && rr_remove(new_views[lp_index(new_views, lp)->0], t).0 is Ok,
            _ => true,
        } by {
            let st = state_of(threads@, t);
            if st is Running || st is Ready {
                let lp = if st is Running { st->Running_0 } else { st->Ready_0 };
                lemma_lp_index(mid, lp);
                let k = lp_index(mid, lp)->0;
                assert(rr_remove(new_views[k], t).0 == rr_remove(mid[k], t).0);
            }
        }
    }
    current
}

/// A semaphore with no count, to sleep on until a deadline `duration_picos` picoseconds from now;
/// none for a zero duration, which does not sleep.
pub fn sleep(duration_picos: u128) -> (r: Option<Semaphore>)
    ensures
        duration_picos == 0 <==> r is None,
        r matches Some(s) ==> s.count_spec() == 0 && s.waiters_spec() == Seq::<crate::semaphore::WaiterId>::empty(),
{
    if duration_picos == 0 {
        return None;
    }
    Some(Semaphore::new(0))
}

/// Registers `observer` to be notified when thread `thread_id` exits.
pub fn observe_thread_exit(threads: &mut ThreadTable, thread_id: ThreadId, observer: ObserverId) -> (r: Result<(), Error>)
    ensures
        final(threads)@ == old(threads)@,
        valid_thread(old(threads)@, thread_id) ==> r is Ok
            && final(threads).observers() == old(threads).observers().push((thread_id, observer)),
        !valid_thread(old(threads)@, thread_id) ==> r == Err::<(), Error>(Error::InvalidThread)
            && final(threads).observers() == old(threads).observers(),
{
    match threads.get(thread_id) {
        Some(_) => {
            threads.register_exit_observer(thread_id, observer);
            Ok(())
        },
        None => Err(Error::InvalidThread),
    }
}

} // verus!
