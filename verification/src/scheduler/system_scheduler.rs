//! The system-wide scheduler: one round-robin scheduler per logical processor, and the placement,
//! blocking, waking and aborting of threads across them.
use vstd::prelude::*;
use vstd::set_lib::FiniteRange;

use crate::interrupt_routing::LpId;
use crate::scheduler::round_robin::{
    lemma_queue_position, previous_runnable, queue_position, rr_add, rr_next, rr_remove, rr_wf, state_of, valid_thread, with_state, RoundRobin,
    RoundRobinView,
};
use crate::scheduler::threads::{first_free, lemma_first_free, AddressSpaceId, Thread, ThreadId, ThreadState, ThreadTable, Waker};

verus! {

#[derive(Debug, Clone, Copy, PartialEq, Eq, Structural)]
pub enum Error {
    InvalidThread,
    AlreadyBlocked,
    ThreadTerminated,
}

/// Where a submitted thread went, and whether that processor must be interrupted to notice it.
#[derive(Debug, Clone, Copy, PartialEq, Eq)]
pub struct Placement {
    pub lp_id: LpId,
    pub send_ipi: bool,
}

/// The index of the scheduler of logical processor `lp` among `scheds`.
pub open spec fn lp_index(scheds: Seq<RoundRobinView>, lp: LpId) -> Option<int>
    decreases scheds.len(),
{
    if scheds.len() == 0 {
        None
    } else if scheds.last().lp_id == lp {
        Some(scheds.len() - 1)
    } else {
        lp_index(scheds.drop_last(), lp)
    }
}

pub proof fn lemma_lp_index(scheds: Seq<RoundRobinView>, lp: LpId)
    ensures
        match lp_index(scheds, lp) {
            Some(i) => 0 <= i < scheds.len() && scheds[i].lp_id == lp,
            None => forall|j: int| 0 <= j < scheds.len() ==> (#[trigger] scheds[j]).lp_id != lp,
        },
    decreases scheds.len(),
{
    if scheds.len() > 0 {
        lemma_lp_index(scheds.drop_last(), lp);
        assert forall|j: int| 0 <= j < scheds.len() - 1 implies #[trigger] scheds[j] == scheds.drop_last()[j] by {}
    }
}

/// No two schedulers serve the same logical processor.
pub open spec fn lp_ids_unique(scheds: Seq<RoundRobinView>) -> bool {
    forall|i: int, j: int| 0 <= i < scheds.len() && 0 <= j < scheds.len() && i != j
        ==> #[trigger] scheds[i].lp_id != #[trigger] scheds[j].lp_id
}

proof fn lemma_lp_index_unique(scheds: Seq<RoundRobinView>, i: int)
    requires
        lp_ids_unique(scheds),
        0 <= i < scheds.len(),
    ensures
        lp_index(scheds, scheds[i].lp_id) == Some(i),
{
    lemma_lp_index(scheds, scheds[i].lp_id);
    if let Some(k) = lp_index(scheds, scheds[i].lp_id) {
        assert(scheds[k].lp_id == scheds[i].lp_id);
    }
}

/// The number of threads assigned to a processor.
pub open spec fn load(s: RoundRobinView) -> int {
    s.queue.len() + if s.current is Some { 1int } else { 0int }
}

/// The scheduler is at `i` among the least loaded, and has the lowest processor number among them.
pub open spec fn least_loaded(scheds: Seq<RoundRobinView>, i: int) -> bool {
    &&& 0 <= i < scheds.len()
    &&& forall|j: int| 0 <= j < scheds.len() ==> load(scheds[i]) < load(#[trigger] scheds[j])
        || (load(scheds[i]) == load(scheds[j]) && scheds[i].lp_id <= scheds[j].lp_id)
}

/// The schedulers agree with the thread table: each serves its own processor and is well formed,
/// and every thread running or ready on a processor names one that has a scheduler.
pub open spec fn system_wf(scheds: Seq<RoundRobinView>, threads: Seq<Option<Thread>>) -> bool {
    &&& threads.len() < usize::MAX
    &&& lp_ids_unique(scheds)
    &&& forall|i: int| 0 <= i < scheds.len() ==> rr_wf(#[trigger] scheds[i], threads)
    &&& forall|t: ThreadId| #[trigger] valid_thread(threads, t) ==> match state_of(threads, t) {
        ThreadState::Running(lp) => lp_index(scheds, lp) is Some,
        ThreadState::Ready(lp) => lp_index(scheds, lp) is Some,
        _ => true,
    }
}

/// The system-wide thread scheduler.
pub struct SystemScheduler {
    pub lp_schedulers: Vec<RoundRobin>,
    pub next_registration: u64,
}

impl SystemScheduler {
    /// The scheduling state of each processor's scheduler.
    pub open spec fn views(&self) -> Seq<RoundRobinView> {
        Seq::new(self.lp_schedulers@.len(), |i: int| self.lp_schedulers@[i]@)
    }

    pub fn new() -> (r: Self)
        ensures
            r.views() == Seq::<RoundRobinView>::empty(),
            r.lp_schedulers@.len() == 0,
            r.next_registration == 0,
    {
        let r = SystemScheduler { lp_schedulers: Vec::new(), next_registration: 0 };
        assert(r.views() =~= Seq::<RoundRobinView>::empty());
        r
    }

    /// Whether a scheduler serves processor `lp`.
    pub fn has_lp_scheduler(&self, lp: LpId) -> (r: bool)
        ensures
            r == (lp_index(self.views(), lp) is Some),
    {
        self.find_lp(lp).is_some()
    }

    pub(crate) fn find_lp(&self, lp: LpId) -> (r: Option<usize>)
        ensures
            r matches Some(i) ==> lp_index(self.views(), lp) == Some(i as int) && i < self.lp_schedulers@.len()
                && self.lp_schedulers@[i as int].lp_id == lp,
            r is None ==> lp_index(self.views(), lp) is None,
    {
        proof {
            lemma_lp_index(self.views(), lp);
        }
        let mut i = self.lp_schedulers.len();
        assert(self.views().take(i as int) =~= self.views());
        while i > 0
            invariant
                i <= self.lp_schedulers@.len(),
                lp_index(self.views(), lp) == lp_index(self.views().take(i as int), lp),
            decreases i,
        {
            assert(self.views()[i - 1] == self.lp_schedulers@[i - 1]@);
            assert(self.views().take(i as int).last() == self.lp_schedulers@[i - 1]@);
            assert(self.views().take(i as int).drop_last() =~= self.views().take(i - 1));
            if self.lp_schedulers[i - 1].lp_id == lp {
                return Some(i - 1);
            }
            i = i - 1;
        }
        None
    }

    /// Installs the scheduler of the current processor `current_lp`, replacing an earlier one.
    pub fn set_lp_scheduler(&mut self, current_lp: LpId, lp_sched: RoundRobin)
        requires
            lp_sched.lp_id == current_lp,
        ensures
            match lp_index(old(self).views(), current_lp) {
                Some(i) => final(self).views() == old(self).views().update(i, lp_sched@),
                None => final(self).views() == old(self).views().push(lp_sched@),
            },
    {
        match self.find_lp(current_lp) {
            Some(i) => {
                self.lp_schedulers.remove(i);
                self.lp_schedulers.insert(i, lp_sched);
                assert(self.views() =~= old(self).views().update(i as int, lp_sched@));
            },
            None => {
                self.lp_schedulers.push(lp_sched);
                assert(self.views() =~= old(self).views().push(lp_sched@));
            },
        }
    }

    /// The scheduler of the current processor.
    pub fn get_lp_scheduler(&self, current_lp: LpId) -> (r: &RoundRobin)
        requires
            lp_index(self.views(), current_lp) is Some,
        ensures
            r@ == self.views()[lp_index(self.views(), current_lp)->0],
    {
        let i = self.find_lp(current_lp).unwrap();
        &self.lp_schedulers[i]
    }

    /// The least loaded scheduler; among equally loaded ones, the lowest processor number.
    fn get_least_loaded_lp(&self) -> (r: usize)
        requires
            self.lp_schedulers@.len() > 0,
            forall|i: int| 0 <= i < self.lp_schedulers@.len() ==> (#[trigger] self.lp_schedulers@[i]).run_queue@.len() < usize::MAX,
        ensures
            least_loaded(self.views(), r as int),
    {
        let mut best: usize = 0;
        let mut best_load = self.lp_schedulers[0].thread_count();
        let mut i: usize = 1;
        while i < self.lp_schedulers.len()
            invariant
                1 <= i <= self.lp_schedulers@.len(),
                best < i,
                forall|k: int| 0 <= k < self.lp_schedulers@.len() ==> (#[trigger] self.lp_schedulers@[k]).run_queue@.len() < usize::MAX,
                best_load == load(self.views()[best as int]),
                forall|j: int| 0 <= j < i ==> load(self.views()[best as int]) < load(#[trigger] self.views()[j])
                    || (load(self.views()[best as int]) == load(self.views()[j]) && self.views()[best as int].lp_id <= self.views()[j].lp_id),
            decreases self.lp_schedulers@.len() - i,
        {
            let count = self.lp_schedulers[i].thread_count();
            if count < best_load || (count == best_load && self.lp_schedulers[i].lp_id < self.lp_schedulers[best].lp_id) {
                best = i;
                best_load = count;
            }
            i = i + 1;
        }
        best
    }

    /// Takes the scheduler at `i` out to update it, and puts back its replacement.
    fn replace_at(&mut self, i: usize, s: RoundRobin) -> (old_sched: RoundRobin)
        requires
            i < old(self).lp_schedulers@.len(),
        ensures
            old_sched == old(self).lp_schedulers@[i as int],
            final(self).lp_schedulers@ == old(self).lp_schedulers@.update(i as int, s),
            final(self).views() == old(self).views().update(i as int, s@),
            final(self).next_registration == old(self).next_registration,
    {
        let old_sched = self.lp_schedulers.remove(i);
        self.lp_schedulers.insert(i, s);
        assert(self.lp_schedulers@ =~= old(self).lp_schedulers@.update(i as int, s));
        assert(self.views() =~= old(self).views().update(i as int, s@));
        old_sched
    }

    /// Submits a ready thread: to the processor it is pinned to, else to the least loaded one.
    /// The target processor is asked to switch, and interrupted if it idles and is not the current
    /// processor.
    pub fn submit_ready_thread(&mut self, threads: &mut ThreadTable, tid: ThreadId, current_lp: LpId) -> (r: Result<Placement, Error>)
        requires
            old(self).lp_schedulers@.len() > 0,
            system_wf(old(self).views(), old(threads)@),
        ensures
            system_wf(final(self).views(), final(threads)@),
            final(threads).observers() == old(threads).observers(),
            !valid_thread(old(threads)@, tid) ==> r == Err::<Placement, Error>(Error::InvalidThread),
            valid_thread(old(threads)@, tid) ==> {
                let thread = old(threads)@[tid as int]->0;
                match thread.affinity {
                    Some(lp) if lp_index(old(self).views(), lp) is None => r == Err::<Placement, Error>(Error::InvalidThread),
                    _ => {
                        let i = match thread.affinity {
                            Some(lp) => lp_index(old(self).views(), lp)->0,
                            None => choose|i: int| least_loaded(old(self).views(), i),
                        };
                        let s = old(self).views()[i];
                        let (res, s2, t2) = rr_add(s, old(threads)@, tid);
                        if res is Err {
                            r == Err::<Placement, Error>(Error::InvalidThread)
                        } else {
                            &&& thread.affinity is None ==> least_loaded(old(self).views(), i)
                            &&& r == Ok::<Placement, Error>(Placement { lp_id: s.lp_id, send_ipi: s.is_idle && s.lp_id != current_lp })
                            &&& final(self).views() == old(self).views().update(i, RoundRobinView { ctx_switch_pending: true, ..s2 })
                            &&& final(threads)@ == t2
                        }
                    },
                }
            },
    {
        let thread = match threads.get(tid) {
            Some(t) => t,
            None => return Err(Error::InvalidThread),
        };
        let idx = match thread.affinity {
            Some(lp) => match self.find_lp(lp) {
                Some(i) => i,
                None => return Err(Error::InvalidThread),
            },
            None => {
                proof {
                    assert forall|k: int| 0 <= k < self.lp_schedulers@.len() implies (#[trigger] self.lp_schedulers@[k]).run_queue@.len() < usize::MAX by {
                        assert(rr_wf(self.views()[k], threads@));
                    }
                }
                let i = self.get_least_loaded_lp();
                proof {
                    lemma_least_loaded_unique(self.views(), i as int, choose|j: int| least_loaded(self.views(), j));
                }
                i
            },
        };
        let ghost old_views = self.views();
        let ghost old_threads = threads@;
        let mut sched = self.replace_at(idx, RoundRobin::new(0, 0));
        let was_idle = sched.is_idle();
        let added = sched.add_thread(threads, tid);
        let lp_id = sched.get_lp_id();
        sched.set_ctx_switch_pending();
        let ghost new_view = sched@;
        self.replace_at(idx, sched);
        proof {
            lemma_add_keeps_wf(old_views, old_threads, idx as int, tid);
            assert(self.views() =~= old_views.update(idx as int, new_view));
        }
        match added {
            Ok(()) => Ok(Placement { lp_id, send_ipi: was_idle && lp_id != current_lp }),
            Err(_) => Err(Error::InvalidThread),
        }
    }
}

impl SystemScheduler {
    /// Marks the scheduler at `i` to switch threads.
    pub(crate) fn mark_switch_pending(&mut self, i: usize)
        requires
            i < old(self).lp_schedulers@.len(),
        ensures
            final(self).lp_schedulers@.len() == old(self).lp_schedulers@.len(),
            final(self).views() == old(self).views().update(i as int, RoundRobinView { ctx_switch_pending: true, ..old(self).views()[i as int] }),
            final(self).next_registration == old(self).next_registration,
    {
        let mut sched = self.replace_at(i, RoundRobin::new(0, 0));
        sched.set_ctx_switch_pending();
        self.replace_at(i, sched);
        assert(self.views() =~= old(self).views().update(i as int, RoundRobinView { ctx_switch_pending: true, ..old(self).views()[i as int] }));
    }

    /// Marks the current thread `tid` blocked, keeping it as the processor's thread until the
    /// context switch saves its stack, and returns the waker of this registration. The caller
    /// registers the waker with the event it waits for and then yields.
    pub fn prepare_to_block(&mut self, threads: &mut ThreadTable, tid: ThreadId, current_lp: LpId) -> (r: Result<Waker, Error>)
        requires
            lp_index(old(self).views(), current_lp) is Some,
            system_wf(old(self).views(), old(threads)@),
        ensures
            system_wf(final(self).views(), final(threads)@),
            final(threads).observers() == old(threads).observers(),
            ({
                let i = lp_index(old(self).views(), current_lp)->0;
                let s = old(self).views()[i];
                let reg = old(self).next_registration;
                if s.current != Some(tid) || !valid_thread(old(threads)@, tid) {
                    &&& r == Err::<Waker, Error>(Error::InvalidThread)
                    &&& final(self).views() == old(self).views()
                    &&& final(self).next_registration == reg
                    &&& final(threads)@ == old(threads)@
                } else if !(state_of(old(threads)@, tid) is Running) {
                    &&& r == Err::<Waker, Error>(Error::AlreadyBlocked)
                    &&& final(self).views() == old(self).views()
                    &&& final(self).next_registration == reg
                    &&& final(threads)@ == old(threads)@
                } else {
                    &&& r == Ok::<Waker, Error>(Waker { thread_id: tid, lp_id: current_lp, registration: reg, notified: false })
                    &&& final(threads)@ == with_state(old(threads)@, tid, ThreadState::Blocked(reg))
                    &&& final(self).views() == old(self).views().update(i, RoundRobinView { ctx_switch_pending: true, ..s })
                    &&& final(self).next_registration == reg.wrapping_add(1)
                }
            }),
    {
        let i = self.find_lp(current_lp).unwrap();
        if self.lp_schedulers[i].get_tid() != Some(tid) {
            return Err(Error::InvalidThread);
        }
        let thread = match threads.get(tid) {
            Some(t) => t,
            None => return Err(Error::InvalidThread),
        };
        match thread.state {
            ThreadState::Running(_) => {},
            _ => return Err(Error::AlreadyBlocked),
        }
        let registration = self.next_registration;
        self.next_registration = registration.wrapping_add(1);
        let waker = Waker::new(tid, current_lp, registration);
        proof {
            lemma_block_keeps_wf(self.views(), threads@, i as int, tid, registration);
        }
        threads.set_state(tid, ThreadState::Blocked(registration));
        self.mark_switch_pending(i);
        Ok(waker)
    }
}

impl SystemScheduler {
    /// Wakes the thread of the registration `wake` only, and resumes it on the processor that
    /// saved its context: it runs on if that processor still runs it, else it is queued there.
    /// Returns whether that processor must be interrupted to notice: it idles and is not the
    /// current processor.
    pub fn wake_thread(&mut self, threads: &mut ThreadTable, wake: &Waker, current_lp: LpId) -> (send_ipi: bool)
        requires
            lp_index(old(self).views(), wake.lp_id) is Some,
            system_wf(old(self).views(), old(threads)@),
        ensures
            system_wf(final(self).views(), final(threads)@),
            final(threads).observers() == old(threads).observers(),
            final(self).next_registration == old(self).next_registration,
            ({
                let i = lp_index(old(self).views(), wake.lp_id)->0;
                let s = old(self).views()[i];
                let tid = wake.thread_id;
                if !valid_thread(old(threads)@, tid) || state_of(old(threads)@, tid) != ThreadState::Blocked(wake.registration) {
                    &&& !send_ipi
                    &&& final(self).views() == old(self).views()
                    &&& final(threads)@ == old(threads)@
                } else if s.current == Some(tid) {
                    &&& send_ipi == (s.is_idle && wake.lp_id != current_lp)
                    &&& final(threads)@ == with_state(old(threads)@, tid, ThreadState::Running(wake.lp_id))
                    &&& final(self).views() == old(self).views().update(i, RoundRobinView { ctx_switch_pending: true, ..s })
                } else {
                    &&& send_ipi == (s.is_idle && wake.lp_id != current_lp)
                    &&& final(threads)@ == with_state(old(threads)@, tid, ThreadState::Ready(wake.lp_id))
                    &&& final(self).views() == old(self).views().update(i, RoundRobinView { ctx_switch_pending: true, queue: s.queue.push(tid), ..s })
                }
            }),
    {
        let i = self.find_lp(wake.lp_id).unwrap();
        let tid = wake.thread_id;
        let thread = match threads.get(tid) {
            Some(t) => t,
            None => return false,
        };
        let blocked_here = match thread.state {
            ThreadState::Blocked(reg) => reg == wake.registration,
            _ => false,
        };
        if !blocked_here {
            return false;
        }
        let ghost old_views = self.views();
        let ghost old_threads = threads@;
        proof {
            lemma_wake_keeps_wf(old_views, old_threads, i as int, tid, wake.registration);
        }
        let mut sched = self.replace_at(i, RoundRobin::new(0, 0));
        if sched.get_tid() == Some(tid) {
            threads.set_state(tid, ThreadState::Running(wake.lp_id));
        } else {
            threads.set_state(tid, ThreadState::NeedsLpAssignment);
            let added = sched.add_thread(threads, tid);
            assert(added is Ok);
            assert(threads@ =~= with_state(old_threads, tid, ThreadState::Ready(wake.lp_id)));
        }
        sched.set_ctx_switch_pending();
        let was_idle = sched.is_idle();
        self.replace_at(i, sched);
        assert(self.views() =~= old_views.update(i as int, sched@));
        was_idle && wake.lp_id != current_lp
    }
}

/// Waking a thread blocked with registration `reg` keeps the schedulers in agreement with the
/// thread table, whether the scheduler at `i` still runs it or queues it.
proof fn lemma_wake_keeps_wf(scheds: Seq<RoundRobinView>, threads: Seq<Option<Thread>>, i: int, tid: ThreadId, reg: u64)
    requires
        system_wf(scheds, threads),
        0 <= i < scheds.len(),
        valid_thread(threads, tid),
        state_of(threads, tid) == ThreadState::Blocked(reg),
    ensures
        scheds[i].current == Some(tid) ==> system_wf(
            scheds.update(i, RoundRobinView { ctx_switch_pending: true, ..scheds[i] }),
            with_state(threads, tid, ThreadState::Running(scheds[i].lp_id)),
        ),
        scheds[i].current != Some(tid) ==> system_wf(
            scheds.update(i, RoundRobinView { ctx_switch_pending: true, queue: scheds[i].queue.push(tid), ..scheds[i] }),
            with_state(threads, tid, ThreadState::Ready(scheds[i].lp_id)),
        ),
{
    let lp = scheds[i].lp_id;
    let running = scheds[i].current == Some(tid);
    let st = if running { ThreadState::Running(lp) } else { ThreadState::Ready(lp) };
    let t2 = with_state(threads, tid, st);
    let s2 = if running {
        RoundRobinView { ctx_switch_pending: true, ..scheds[i] }
    } else {
        RoundRobinView { ctx_switch_pending: true, queue: scheds[i].queue.push(tid), ..scheds[i] }
    };
    let scheds2 = scheds.update(i, s2);
    assert(forall|t: ThreadId| t != tid ==> #[trigger] valid_thread(t2, t) == valid_thread(threads, t));
    assert(forall|t: ThreadId| t != tid && valid_thread(threads, t) ==> #[trigger] state_of(t2, t) == state_of(threads, t));
    assert(state_of(t2, tid) == st);
    assert(valid_thread(t2, tid));
    assert(rr_wf(scheds[i], threads));
    assert(!scheds[i].queue.contains(tid)) by {
        if scheds[i].queue.contains(tid) {
            let k = choose|k: int| 0 <= k < scheds[i].queue.len() && scheds[i].queue[k] == tid;
            assert(state_of(threads, scheds[i].queue[k]) == ThreadState::Ready(lp));
        }
    }
    assert forall|j: int| 0 <= j < scheds2.len() implies rr_wf(#[trigger] scheds2[j], t2) by {
        assert(rr_wf(scheds[j], threads));
        if j == i {
            let q = s2.queue;
            assert forall|k: int| 0 <= k < q.len() implies valid_thread(t2, #[trigger] q[k])
                && state_of(t2, q[k]) == ThreadState::Ready(lp) by {
                if k < scheds[i].queue.len() {
                    assert(q[k] == scheds[i].queue[k]);
                    assert(q[k] != tid);
                }
            }
            assert forall|t: ThreadId| valid_thread(t2, t) && state_of(t2, t) == ThreadState::Ready(lp)
                implies #[trigger] q.contains(t) by {
                if t == tid {
                    assert(q[q.len() - 1] == tid);
                } else {
                    assert(scheds[i].queue.contains(t));
                    let k = choose|k: int| 0 <= k < scheds[i].queue.len() && scheds[i].queue[k] == t;
                    assert(q[k] == t);
                }
            }
            assert forall|t: ThreadId| valid_thread(t2, t) && #[trigger] state_of(t2, t) == ThreadState::Running(lp)
                implies s2.current == Some(t) by {
            }
            assert(q.no_duplicates()) by {
                if !running {
                    assert forall|a: int, b: int| 0 <= a < q.len() && 0 <= b < q.len() && a != b implies q[a] != q[b] by {
                        if a == q.len() - 1 {
                            assert(scheds[i].queue[b] != tid);
                        } else if b == q.len() - 1 {
                            assert(scheds[i].queue[a] != tid);
                        }
                    }
                }
            }
            assert(q.len() < usize::MAX) by {
                lemma_queue_len_bound(q, t2);
            }
        } else {
            let q = scheds[j].queue;
            assert(scheds[j].lp_id != lp);
            assert forall|k: int| 0 <= k < q.len() implies valid_thread(t2, #[trigger] q[k])
                && state_of(t2, q[k]) == ThreadState::Ready(scheds[j].lp_id) by {
                assert(q[k] != tid);
            }
            assert forall|t: ThreadId| valid_thread(t2, t) && state_of(t2, t) == ThreadState::Ready(scheds[j].lp_id)
                implies #[trigger] q.contains(t) by {
                assert(t != tid);
            }
            assert forall|t: ThreadId| valid_thread(t2, t) && #[trigger] state_of(t2, t) == ThreadState::Running(scheds[j].lp_id)
                implies scheds[j].current == Some(t) by {
                assert(t != tid);
            }
            assert(scheds2[j] == scheds[j]);
        }
    }
    assert forall|t: ThreadId| #[trigger] valid_thread(t2, t) implies match state_of(t2, t) {
        ThreadState::Running(l) => lp_index(scheds2, l) is Some,
        ThreadState::Ready(l) => lp_index(scheds2, l) is Some,
        _ => true,
    } by {
        lemma_lp_index_same_ids(scheds, scheds2);
        if t == tid {
            lemma_lp_index_unique(scheds, i);
        }
    }
}

/// What aborting thread `tid` does to the schedulers: the scheduler of the processor it runs or is
/// queued on lets go of it; the others are unchanged.
pub open spec fn schedulers_after_abort(scheds: Seq<RoundRobinView>, threads: Seq<Option<Thread>>, tid: ThreadId) -> Seq<RoundRobinView> {
    match state_of(threads, tid) {
        ThreadState::Running(lp) => {
            let i = lp_index(scheds, lp)->0;
            scheds.update(i, rr_remove(scheds[i], tid).1)
        },
        ThreadState::Ready(lp) => {
            let i = lp_index(scheds, lp)->0;
            scheds.update(i, rr_remove(scheds[i], tid).1)
        },
        _ => scheds,
    }
}

/// Thread `tid` is ready on a processor whose scheduler still holds it as its thread: the handle
/// left behind by an earlier thread with the same ID that blocked there and was aborted. Taking
/// such a thread off its processor clears the handle and leaves it queued.
pub open spec fn stale_handle(scheds: Seq<RoundRobinView>, threads: Seq<Option<Thread>>, tid: ThreadId) -> bool {
    match state_of(threads, tid) {
        ThreadState::Ready(lp) => match lp_index(scheds, lp) {
            Some(i) => scheds[i].current == Some(tid),
            None => false,
        },
        _ => false,
    }
}

impl SystemScheduler {
    /// Aborts thread `tid`: takes it off the processor it runs or is queued on and deletes it from
    /// the table. Returns its ID.
    pub fn abort_thread(&mut self, threads: &mut ThreadTable, tid: ThreadId) -> (r: Result<ThreadId, Error>)
        requires
            abortable(old(self).views(), old(threads)@),
        ensures
            abortable(final(self).views(), final(threads)@),
            system_wf(old(self).views(), old(threads)@) && !stale_handle(old(self).views(), old(threads)@, tid)
                ==> system_wf(final(self).views(), final(threads)@),
            final(threads).observers() == old(threads).observers(),
            final(self).next_registration == old(self).next_registration,
            !valid_thread(old(threads)@, tid) ==> {
                &&& r == Err::<ThreadId, Error>(Error::InvalidThread)
                &&& final(self).views() == old(self).views()
                &&& final(threads)@ == old(threads)@
            },
            valid_thread(old(threads)@, tid) ==> {
                &&& r == Ok::<ThreadId, Error>(tid)
                &&& final(threads)@ == old(threads)@.update(tid as int, None)
                &&& final(self).views() == schedulers_after_abort(old(self).views(), old(threads)@, tid)
            },
    {
        let thread = match threads.get(tid) {
            Some(t) => t,
            None => return Err(Error::InvalidThread),
        };
        let ghost old_views = self.views();
        let ghost old_threads = threads@;
        proof {
            lemma_abortable_after_abort(old_views, old_threads, tid);
            if system_wf(old_views, old_threads) && !stale_handle(old_views, old_threads, tid) {
                lemma_abort_keeps_wf_without_stale_handle(old_views, old_threads, tid);
            }
        }
        match thread.state {
            ThreadState::Running(lp) | ThreadState::Ready(lp) => {
                let i = self.find_lp(lp).unwrap();
                let mut sched = self.replace_at(i, RoundRobin::new(0, 0));
                let removed = sched.remove_thread(tid);
                assert(removed is Ok);
                self.replace_at(i, sched);
                assert(self.views() =~= old_views.update(i as int, sched@));
            },
            _ => {},
        }
        threads.remove_element(tid);
        Ok(tid)
    }
}

/// Every thread that runs or is queued names a processor with a scheduler, and that scheduler
/// holds it: aborting any thread of the table finds its scheduler and takes it off without error.
pub open spec fn abortable(scheds: Seq<RoundRobinView>, threads: Seq<Option<Thread>>) -> bool {
    forall|t: ThreadId| #[trigger] valid_thread(threads, t) ==> match state_of(threads, t) {
        ThreadState::Running(lp) => lp_index(scheds, lp) is Some && rr_remove(scheds[lp_index(scheds, lp)->0], t).0 is Ok,
        ThreadState::Ready(lp) => lp_index(scheds, lp) is Some && rr_remove(scheds[lp_index(scheds, lp)->0], t).0 is Ok,
        _ => true,
    }
}

/// Schedulers in agreement with the table can abort any of its threads.
pub proof fn lemma_wf_abortable(scheds: Seq<RoundRobinView>, threads: Seq<Option<Thread>>)
    requires
        system_wf(scheds, threads),
    ensures
        abortable(scheds, threads),
{
    assert forall|t: ThreadId| #[trigger] valid_thread(threads, t) implies match state_of(threads, t) {
        ThreadState::Running(lp) => lp_index(scheds, lp) is Some && rr_remove(scheds[lp_index(scheds, lp)->0], t).0 is Ok,
        ThreadState::Ready(lp) => lp_index(scheds, lp) is Some && rr_remove(scheds[lp_index(scheds, lp)->0], t).0 is Ok,
        _ => true,
    } by {
        let st = state_of(threads, t);
        if st is Running || st is Ready {
            let lp = if st is Running { st->Running_0 } else { st->Ready_0 };
            lemma_lp_index(scheds, lp);
            let i = lp_index(scheds, lp)->0;
            assert(rr_wf(scheds[i], threads));
            if st is Ready {
                assert(scheds[i].queue.contains(t));
                lemma_queue_position(scheds[i].queue, t);
            }
        }
    }
}

/// What aborting thread `tid` does to the schedulers and the table; nothing, if the table has no
/// such thread.
pub open spec fn after_abort(scheds: Seq<RoundRobinView>, threads: Seq<Option<Thread>>, tid: ThreadId) -> (Seq<RoundRobinView>, Seq<Option<Thread>>) {
    if valid_thread(threads, tid) {
        (schedulers_after_abort(scheds, threads, tid), threads.update(tid as int, None))
    } else {
        (scheds, threads)
    }
}

/// Aborting a thread changes at most the scheduler that holds it, and only by letting go of it.
pub proof fn lemma_after_abort_shape(scheds: Seq<RoundRobinView>, threads: Seq<Option<Thread>>, tid: ThreadId)
    requires
        abortable(scheds, threads),
        valid_thread(threads, tid),
    ensures
        ({
            let scheds2 = schedulers_after_abort(scheds, threads, tid);
            &&& scheds2.len() == scheds.len()
            &&& forall|k: int| 0 <= k < scheds.len() ==> (#[trigger] scheds2[k]).lp_id == scheds[k].lp_id
            &&& forall|k: int| 0 <= k < scheds.len() ==> scheds2[k] == scheds[k]
                || scheds2[k] == rr_remove(#[trigger] scheds[k], tid).1
            &&& forall|lp: LpId| #[trigger] lp_index(scheds2, lp) == lp_index(scheds, lp)
        }),
{
    let st = state_of(threads, tid);
    let scheds2 = schedulers_after_abort(scheds, threads, tid);
    assert(valid_thread(threads, tid));
    if st is Running || st is Ready {
        let lp = if st is Running { st->Running_0 } else { st->Ready_0 };
        lemma_lp_index(scheds, lp);
    }
    assert(scheds2.len() == scheds.len());
    assert(forall|k: int| 0 <= k < scheds.len() ==> (#[trigger] scheds2[k]).lp_id == scheds[k].lp_id);
    lemma_lp_index_same_ids(scheds2, scheds);
}

/// Aborting a thread keeps every other thread abortable.
pub proof fn lemma_abortable_after_abort(scheds: Seq<RoundRobinView>, threads: Seq<Option<Thread>>, tid: ThreadId)
    requires
        abortable(scheds, threads),
    ensures
        abortable(after_abort(scheds, threads, tid).0, after_abort(scheds, threads, tid).1),
{
    if valid_thread(threads, tid) {
        let t2 = threads.update(tid as int, None);
        let scheds2 = schedulers_after_abort(scheds, threads, tid);
        let st = state_of(threads, tid);
        assert(valid_thread(threads, tid));
        lemma_after_abort_shape(scheds, threads, tid);
        if st is Running || st is Ready {
            let lpu = if st is Running { st->Running_0 } else { st->Ready_0 };
            lemma_lp_index(scheds, lpu);
        }
        assert forall|t: ThreadId| #[trigger] valid_thread(t2, t) implies match state_of(t2, t) {
            ThreadState::Running(lp) => lp_index(scheds2, lp) is Some && rr_remove(scheds2[lp_index(scheds2, lp)->0], t).0 is Ok,
            ThreadState::Ready(lp) => lp_index(scheds2, lp) is Some && rr_remove(scheds2[lp_index(scheds2, lp)->0], t).0 is Ok,
            _ => true,
        } by {
            assert(t != tid);
            assert(valid_thread(threads, t));
            assert(state_of(t2, t) == state_of(threads, t));
            let stt = state_of(threads, t);
            if stt is Running || stt is Ready {
                let lp = if stt is Running { stt->Running_0 } else { stt->Ready_0 };
                let j = lp_index(scheds, lp)->0;
                lemma_lp_index(scheds, lp);
                let s = scheds[j];
                assert(rr_remove(s, t).0 is Ok);
                lemma_queue_position(s.queue, t);
                if st is Running || st is Ready {
                    let lpu = if st is Running { st->Running_0 } else { st->Ready_0 };
                    let i = lp_index(scheds, lpu)->0;
                    if j == i {
                        lemma_queue_position(s.queue, tid);
                        let s2 = rr_remove(s, tid).1;
                        assert(scheds2[j] == s2);
                        if s.current != Some(t) {
                            assert(s.queue.contains(t));
                            let k = choose|k: int| 0 <= k < s.queue.len() && s.queue[k] == t;
                            if s.current != Some(tid) {
                                let p = queue_position(s.queue, tid)->0;
                                assert(s2.queue == s.queue.remove(p));
                                if k < p {
                                    assert(s2.queue[k] == t);
                                } else {
                                    assert(k != p);
                                    assert(s2.queue[k - 1] == t);
                                }
                                assert(s2.queue.contains(t));
                            } else {
                                assert(s2.queue == s.queue);
                                assert(s2.queue[k] == t);
                            }
                            lemma_queue_position(s2.queue, t);
                        }
                    } else {
                        assert(scheds2[j] == s);
                    }
                } else {
                    assert(scheds2 == scheds);
                }
            }
        }
    }
}

/// After an abort, a thread holds a stale handle only if it held one before: aborts only let go
/// of threads.
proof fn lemma_stale_after_abort(scheds: Seq<RoundRobinView>, threads: Seq<Option<Thread>>, tid: ThreadId, t: ThreadId)
    requires
        abortable(scheds, threads),
        valid_thread(threads, t),
        t != tid,
    ensures
        stale_handle(after_abort(scheds, threads, tid).0, after_abort(scheds, threads, tid).1, t)
            ==> stale_handle(scheds, threads, t),
{
    if valid_thread(threads, tid) {
        let t2 = threads.update(tid as int, None);
        let scheds2 = schedulers_after_abort(scheds, threads, tid);
        assert(state_of(t2, t) == state_of(threads, t));
        lemma_after_abort_shape(scheds, threads, tid);
        if let ThreadState::Ready(lp) = state_of(threads, t) {
            lemma_lp_index(scheds, lp);
            if let Some(i) = lp_index(scheds, lp) {
                assert(scheds2[i] == scheds[i] || scheds2[i] == rr_remove(scheds[i], tid).1);
                lemma_queue_position(scheds[i].queue, tid);
            }
        }
    }
}

/// Aborting a thread of the table keeps the schedulers in agreement with the table, unless a
/// scheduler holds a stale handle of it.
pub proof fn lemma_abort_keeps_wf_without_stale_handle(scheds: Seq<RoundRobinView>, threads: Seq<Option<Thread>>, tid: ThreadId)
    requires
        system_wf(scheds, threads),
        valid_thread(threads, tid),
        !stale_handle(scheds, threads, tid),
    ensures
        system_wf(schedulers_after_abort(scheds, threads, tid), threads.update(tid as int, None)),
{
    let t2 = threads.update(tid as int, None);
    let scheds2 = schedulers_after_abort(scheds, threads, tid);
    let st = state_of(threads, tid);
    assert(valid_thread(threads, tid));
    assert(forall|t: ThreadId| t != tid ==> #[trigger] valid_thread(t2, t) == valid_thread(threads, t));
    assert(forall|t: ThreadId| t != tid && valid_thread(threads, t) ==> #[trigger] state_of(t2, t) == state_of(threads, t));
    assert(!valid_thread(t2, tid));
    let held = st is Running || st is Ready;
    let lp = if st is Running { st->Running_0 } else { st->Ready_0 };
    let i = lp_index(scheds, lp)->0;
    if held {
        lemma_lp_index(scheds, lp);
        assert(rr_wf(scheds[i], threads));
        let q = scheds[i].queue;
        if st is Running {
            assert(scheds[i].current == Some(tid));
        } else {
            assert(q.contains(tid));
            lemma_queue_position(q, tid);
            assert(scheds[i].current != Some(tid));
        }
    }
    assert(scheds2.len() == scheds.len());
    assert(forall|k: int| 0 <= k < scheds.len() ==> (#[trigger] scheds2[k]).lp_id == scheds[k].lp_id);
    lemma_lp_index_same_ids(scheds, scheds2);
    assert forall|j: int| 0 <= j < scheds2.len() implies rr_wf(#[trigger] scheds2[j], t2) by {
        assert(rr_wf(scheds[j], threads));
        let q = scheds[j].queue;
        let q2 = scheds2[j].queue;
        let lpj = scheds[j].lp_id;
        if held && j == i {
            if st is Running {
                assert(q2 == q);
                assert forall|k: int| 0 <= k < q.len() implies valid_thread(t2, #[trigger] q[k])
                    && state_of(t2, q[k]) == ThreadState::Ready(lpj) by {
                    assert(q[k] != tid);
                }
                assert forall|t: ThreadId| valid_thread(t2, t) && state_of(t2, t) == ThreadState::Ready(lpj)
                    implies #[trigger] q.contains(t) by {
                }
                assert forall|t: ThreadId| valid_thread(t2, t) && #[trigger] state_of(t2, t) == ThreadState::Running(lpj)
                    implies scheds2[j].current == Some(t) by {
                    assert(state_of(threads, t) == ThreadState::Running(lpj));
                    assert(scheds[j].current == Some(t));
                }
            } else {
                lemma_queue_position(q, tid);
                let p = queue_position(q, tid)->0;
                assert(q2 == q.remove(p));
                assert(forall|k: int| 0 <= k < q2.len() ==> #[trigger] q2[k] == if k < p { q[k] } else { q[k + 1] });
                assert forall|k: int| 0 <= k < q2.len() implies valid_thread(t2, #[trigger] q2[k])
                    && state_of(t2, q2[k]) == ThreadState::Ready(lpj) by {
                    let kk = if k < p { k } else { k + 1 };
                    assert(q2[k] == q[kk]);
                    assert(kk != p);
                    assert(q[kk] != tid);
                }
                assert forall|t: ThreadId| valid_thread(t2, t) && state_of(t2, t) == ThreadState::Ready(lpj)
                    implies #[trigger] q2.contains(t) by {
                    assert(q.contains(t));
                    let k = choose|k: int| 0 <= k < q.len() && q[k] == t;
                    assert(k != p);
                    if k < p {
                        assert(q2[k] == t);
                    } else {
                        assert(q2[k - 1] == t);
                    }
                }
                assert(q2.no_duplicates()) by {
                    assert forall|a: int, b: int| 0 <= a < q2.len() && 0 <= b < q2.len() && a != b implies q2[a] != q2[b] by {
                        let aa = if a < p { a } else { a + 1 };
                        let bb = if b < p { b } else { b + 1 };
                        assert(q2[a] == q[aa]);
                        assert(q2[b] == q[bb]);
                    }
                }
                assert forall|t: ThreadId| valid_thread(t2, t) && #[trigger] state_of(t2, t) == ThreadState::Running(lpj)
                    implies scheds2[j].current == Some(t) by {
                    assert(state_of(threads, t) == ThreadState::Running(lpj));
                }
            }
        } else {
            assert(scheds2[j] == scheds[j]);
            if held {
                assert(lpj != lp);
            }
            assert forall|k: int| 0 <= k < q.len() implies valid_thread(t2, #[trigger] q[k])
                && state_of(t2, q[k]) == ThreadState::Ready(lpj) by {
                assert(q[k] != tid);
            }
            assert forall|t: ThreadId| valid_thread(t2, t) && state_of(t2, t) == ThreadState::Ready(lpj)
                implies #[trigger] q.contains(t) by {
            }
            assert forall|t: ThreadId| valid_thread(t2, t) && #[trigger] state_of(t2, t) == ThreadState::Running(lpj)
                implies scheds[j].current == Some(t) by {
                assert(state_of(threads, t) == ThreadState::Running(lpj));
            }
        }
    }
    assert forall|t: ThreadId| #[trigger] valid_thread(t2, t) implies match state_of(t2, t) {
        ThreadState::Running(l) => lp_index(scheds2, l) is Some,
        ThreadState::Ready(l) => lp_index(scheds2, l) is Some,
        _ => true,
    } by {
        assert(valid_thread(threads, t));
    }
}

/// The IDs of the threads of address space `asid`, in ascending order.
pub open spec fn threads_of_address_space(threads: Seq<Option<Thread>>, asid: AddressSpaceId) -> Seq<ThreadId>
    decreases threads.len(),
{
    if threads.len() == 0 {
        Seq::empty()
    } else {
        let rest = threads_of_address_space(threads.drop_last(), asid);
        match threads.last() {
            Some(th) => if th.asid == asid { rest.push((threads.len() - 1) as ThreadId) } else { rest },
            None => rest,
        }
    }
}

proof fn lemma_threads_of_address_space(threads: Seq<Option<Thread>>, asid: AddressSpaceId)
    requires
        threads.len() <= usize::MAX,
    ensures
        ({
            let ids = threads_of_address_space(threads, asid);
            &&& forall|k: int| 0 <= k < ids.len() ==> valid_thread(threads, #[trigger] ids[k])
                && threads[ids[k] as int]->0.asid == asid
            &&& forall|a: int, b: int| 0 <= a < b < ids.len() ==> #[trigger] ids[a] < #[trigger] ids[b]
            &&& forall|t: ThreadId| valid_thread(threads, t) && threads[t as int]->0.asid == asid
                ==> #[trigger] ids.contains(t)
        }),
    decreases threads.len(),
{
    if threads.len() > 0 {
        let init = threads.drop_last();
        lemma_threads_of_address_space(init, asid);
        let rest = threads_of_address_space(init, asid);
        let ids = threads_of_address_space(threads, asid);
        assert(forall|k: int| 0 <= k < rest.len() ==> (#[trigger] rest[k]) < init.len());
        assert forall|k: int| 0 <= k < ids.len() implies valid_thread(threads, #[trigger] ids[k])
            && threads[ids[k] as int]->0.asid == asid by {
            if k < rest.len() {
                assert(ids[k] == rest[k]);
                assert(threads[rest[k] as int] == init[rest[k] as int]);
            }
        }
        assert forall|t: ThreadId| valid_thread(threads, t) && threads[t as int]->0.asid == asid
            implies #[trigger] ids.contains(t) by {
            if t < init.len() {
                assert(init[t as int] == threads[t as int]);
                assert(rest.contains(t));
                let k = choose|k: int| 0 <= k < rest.len() && rest[k] == t;
                assert(ids[k] == t);
            } else {
                assert(ids[ids.len() - 1] == t);
            }
        }
    }
}

/// What aborting the threads `tids`, one after the other, does to the schedulers and the table.
pub open spec fn after_aborts(scheds: Seq<RoundRobinView>, threads: Seq<Option<Thread>>, tids: Seq<ThreadId>) -> (Seq<RoundRobinView>, Seq<Option<Thread>>)
    decreases tids.len(),
{
    if tids.len() == 0 {
        (scheds, threads)
    } else {
        let (s1, t1) = after_aborts(scheds, threads, tids.drop_last());
        after_abort(s1, t1, tids.last())
    }
}

impl SystemScheduler {
    /// Aborts every thread of address space `asid`, in ascending order of thread ID.
    pub fn abort_as_threads(&mut self, threads: &mut ThreadTable, asid: AddressSpaceId)
        requires
            abortable(old(self).views(), old(threads)@),
        ensures
            (final(self).views(), final(threads)@) == after_aborts(old(self).views(), old(threads)@,
                threads_of_address_space(old(threads)@, asid)),
            final(threads)@.len() == old(threads)@.len(),
            forall|t: int| 0 <= t < old(threads)@.len() ==> #[trigger] final(threads)@[t] == if old(threads)@[t] matches Some(th)
                && th.asid == asid { None } else { old(threads)@[t] },
            abortable(final(self).views(), final(threads)@),
            system_wf(old(self).views(), old(threads)@)
                && (forall|t: ThreadId| #[trigger] valid_thread(old(threads)@, t) && old(threads)@[t as int]->0.asid == asid
                    ==> !stale_handle(old(self).views(), old(threads)@, t))
                ==> system_wf(final(self).views(), final(threads)@),
            final(threads).observers() == old(threads).observers(),
            final(self).next_registration == old(self).next_registration,
    {
        let ghost old_views = self.views();
        let ghost old_threads = threads@;
        let ghost old_observers = threads.observers();
        let ghost no_stale = system_wf(old_views, old_threads)
            && (forall|t: ThreadId| #[trigger] valid_thread(old_threads, t) && old_threads[t as int]->0.asid == asid
                ==> !stale_handle(old_views, old_threads, t));
        let n = threads.len();
        let mut ids: Vec<ThreadId> = Vec::new();
        let mut i: usize = 0;
        while i < n
            invariant
                n == threads@.len(),
                i <= n,
                threads@ == old_threads,
                ids@ == threads_of_address_space(threads@.take(i as int), asid),
                ids@.len() <= i,
            decreases n - i,
        {
            assert(threads@.take(i + 1).drop_last() =~= threads@.take(i as int));
            if let Some(th) = threads.get(i) {
                if th.asid == asid {
                    ids.push(i);
                }
            }
            i = i + 1;
        }
        assert(threads@.take(n as int) =~= threads@);
        proof {
            lemma_threads_of_address_space(old_threads, asid);
        }
        let mut k: usize = 0;
        while k < ids.len()
            invariant
                k <= ids@.len(),
                ids@ == threads_of_address_space(old_threads, asid),
                forall|a: int| 0 <= a < ids@.len() ==> valid_thread(old_threads, #[trigger] ids@[a])
                    && old_threads[ids@[a] as int]->0.asid == asid,
                forall|a: int, b: int| 0 <= a < b < ids@.len() ==> #[trigger] ids@[a] < #[trigger] ids@[b],
                (self.views(), threads@) == after_aborts(old_views, old_threads, ids@.take(k as int)),
                abortable(self.views(), threads@),
                threads@.len() == old_threads.len(),
                old_threads.len() <= usize::MAX,
                forall|t: int| 0 <= t < old_threads.len() ==> #[trigger] threads@[t]
                    == if ids@.take(k as int).contains(t as ThreadId) { None } else { old_threads[t] },
                no_stale ==> system_wf(self.views(), threads@),
                no_stale ==> forall|a: int| k <= a < ids@.len() ==> !stale_handle(self.views(), threads@, #[trigger] ids@[a]),
                no_stale == (system_wf(old_views, old_threads)
                    && (forall|t: ThreadId| #[trigger] valid_thread(old_threads, t) && old_threads[t as int]->0.asid == asid
                        ==> !stale_handle(old_views, old_threads, t))),
                threads.observers() == old_observers,
                self.next_registration == old(self).next_registration,
            decreases ids@.len() - k,
        {
            let tid = ids[k];
            let ghost views_before = self.views();
            let ghost threads_before = threads@;
            assert(!ids@.take(k as int).contains(tid)) by {
                if ids@.take(k as int).contains(tid) {
                    let a = choose|a: int| 0 <= a < k && ids@.take(k as int)[a] == tid;
                    assert(ids@[a] < ids@[k as int]);
                }
            }
            assert(threads@[tid as int] == old_threads[tid as int]);
            assert(valid_thread(threads@, tid));
            proof {
                assert forall|a: int| k < a < ids@.len()
                    && stale_handle(after_abort(views_before, threads_before, tid).0, after_abort(views_before, threads_before, tid).1, #[trigger] ids@[a])
                    implies stale_handle(views_before, threads_before, ids@[a]) by {
                    assert(ids@[k as int] < ids@[a]);
                    assert(!ids@.take(k as int).contains(ids@[a])) by {
                        if ids@.take(k as int).contains(ids@[a]) {
                            let b = choose|b: int| 0 <= b < k && ids@.take(k as int)[b] == ids@[a];
                            assert(ids@[b] < ids@[a]);
                        }
                    }
                    assert(threads_before[ids@[a] as int] == old_threads[ids@[a] as int]);
                    lemma_stale_after_abort(views_before, threads_before, tid, ids@[a]);
                }
            }
            let aborted = self.abort_thread(threads, tid);
            assert(aborted is Ok);
            proof {
                assert(ids@.take(k + 1).drop_last() =~= ids@.take(k as int));
                assert(ids@.take(k + 1).last() == tid);
                assert forall|t: int| 0 <= t < old_threads.len() implies #[trigger] threads@[t]
                    == if ids@.take(k + 1).contains(t as ThreadId) { None } else { old_threads[t] } by {
                    if t == tid as int {
                        assert(ids@.take(k + 1)[k as int] == tid);
                    } else {
                        assert(threads@[t] == threads_before[t]);
                        if ids@.take(k as int).contains(t as ThreadId) {
                            let a = choose|a: int| 0 <= a < k && #[trigger] ids@.take(k as int)[a] == t as ThreadId;
                            assert(ids@.take(k + 1)[a] == t as ThreadId);
                        }
                        if ids@.take(k + 1).contains(t as ThreadId) {
                            let a = choose|a: int| 0 <= a < k + 1 && #[trigger] ids@.take(k + 1)[a] == t as ThreadId;
                            assert(a != k);
                            assert(ids@.take(k as int)[a] == t as ThreadId);
                        }
                    }
                }
            }
            k = k + 1;
        }
        assert(ids@.take(k as int) =~= ids@);
        proof {
            assert forall|t: int| 0 <= t < old_threads.len() implies #[trigger] threads@[t] == if old_threads[t] matches Some(th)
                && th.asid == asid { None } else { old_threads[t] } by {
                if old_threads[t] matches Some(th) && th.asid == asid {
                    assert(valid_thread(old_threads, t as ThreadId));
                    assert(ids@.contains(t as ThreadId));
                } else if ids@.contains(t as ThreadId) {
                    let a = choose|a: int| 0 <= a < ids@.len() && ids@[a] == t as ThreadId;
                    assert(valid_thread(old_threads, ids@[a]));
                }
            }
        }
    }
}

/// The thread that the current processor `current_lp` runs, if it has a scheduler and runs one.
pub fn get_thread_id(sys: &SystemScheduler, current_lp: LpId) -> (r: Option<ThreadId>)
    ensures
        r == match lp_index(sys.views(), current_lp) {
            Some(i) => sys.views()[i].current,
            None => None,
        },
{
    match sys.find_lp(current_lp) {
        Some(i) => sys.lp_schedulers[i].get_tid(),
        None => None,
    }
}

/// Adding a thread that waits for a processor to the table keeps the schedulers in agreement with
/// it.
pub proof fn lemma_new_thread_keeps_wf(scheds: Seq<RoundRobinView>, threads: Seq<Option<Thread>>, thread: Thread)
    requires
        system_wf(scheds, threads),
        threads.len() + 1 < usize::MAX,
        thread.state == ThreadState::NeedsLpAssignment,
    ensures
        match first_free(threads) {
            Some(i) => system_wf(scheds, threads.update(i, Some(thread))),
            None => system_wf(scheds, threads.push(Some(thread))),
        },
{
    lemma_first_free(threads);
    let tid: int = match first_free(threads) {
        Some(i) => i,
        None => threads.len() as int,
    };
    let t2 = match first_free(threads) {
        Some(i) => threads.update(i, Some(thread)),
        None => threads.push(Some(thread)),
    };
    assert(t2.len() < usize::MAX);
    assert(!valid_thread(threads, tid as ThreadId));
    assert(forall|t: ThreadId| t != tid ==> #[trigger] valid_thread(t2, t) == valid_thread(threads, t));
    assert(forall|t: ThreadId| t != tid && valid_thread(threads, t) ==> #[trigger] state_of(t2, t) == state_of(threads, t));
    assert(state_of(t2, tid as ThreadId) == ThreadState::NeedsLpAssignment);
    assert forall|j: int| 0 <= j < scheds.len() implies rr_wf(#[trigger] scheds[j], t2) by {
        assert(rr_wf(scheds[j], threads));
        let q = scheds[j].queue;
        assert forall|k: int| 0 <= k < q.len() implies valid_thread(t2, #[trigger] q[k])
            && state_of(t2, q[k]) == ThreadState::Ready(scheds[j].lp_id) by {
            assert(valid_thread(threads, q[k]));
        }
        assert forall|t: ThreadId| valid_thread(t2, t) && state_of(t2, t) == ThreadState::Ready(scheds[j].lp_id)
            implies #[trigger] q.contains(t) by {
        }
        assert forall|t: ThreadId| valid_thread(t2, t) && #[trigger] state_of(t2, t) == ThreadState::Running(scheds[j].lp_id)
            implies scheds[j].current == Some(t) by {
        }
    }
    assert forall|t: ThreadId| #[trigger] valid_thread(t2, t) implies match state_of(t2, t) {
        ThreadState::Running(l) => lp_index(scheds, l) is Some,
        ThreadState::Ready(l) => lp_index(scheds, l) is Some,
        _ => true,
    } by {
        if t != tid {
            assert(valid_thread(threads, t));
        }
    }
}

/// A processor switching threads keeps the schedulers in agreement with the thread table, provided
/// the thread its scheduler holds, if it still runs, runs on that processor (and not, under a reused
/// ID, on another).
pub proof fn lemma_next_keeps_wf(scheds: Seq<RoundRobinView>, threads: Seq<Option<Thread>>, i: int)
    requires
        system_wf(scheds, threads),
        0 <= i < scheds.len(),
        scheds[i].current matches Some(t) ==> (valid_thread(threads, t) && state_of(threads, t) is Running
            ==> state_of(threads, t) == ThreadState::Running(scheds[i].lp_id)),
    ensures
        ({
            let (r, s2, t2) = rr_next(scheds[i], threads);
            system_wf(scheds.update(i, s2), t2)
        }),
{
    let s = scheds[i];
    let lp = s.lp_id;
    let (r, s2, t2) = rr_next(s, threads);
    let scheds2 = scheds.update(i, s2);
    assert(rr_wf(s, threads));
    if s.queue.len() > 0 {
        let runnable = previous_runnable(s, threads);
        let prev = s.current->0;
        let q = s.queue;
        let q1 = if runnable { q.push(prev) } else { q };
        let t1 = if runnable { with_state(threads, prev, ThreadState::Ready(lp)) } else { threads };
        let next = q1[0];
        assert(next == q[0]);
        let q2 = q1.drop_first();
        assert(s2.queue == q2);
        assert(t2 == with_state(t1, next, ThreadState::Running(lp)));
        assert(valid_thread(threads, next) && state_of(threads, next) == ThreadState::Ready(lp));
        if runnable {
            assert(!q.contains(prev)) by {
                if q.contains(prev) {
                    let k = choose|k: int| 0 <= k < q.len() && q[k] == prev;
                    assert(state_of(threads, q[k]) == ThreadState::Ready(lp));
                }
            }
            assert(prev != next);
        }
        // What changed in the table: `next` runs, and a runnable `prev` is ready again.
        assert forall|t: ThreadId| t != next && !(runnable && t == prev) implies
            #[trigger] valid_thread(t2, t) == valid_thread(threads, t)
            && (valid_thread(threads, t) ==> state_of(t2, t) == state_of(threads, t)) by {
        }
        assert(valid_thread(t2, next) && state_of(t2, next) == ThreadState::Running(lp));
        assert(runnable ==> valid_thread(t2, prev) && state_of(t2, prev) == ThreadState::Ready(lp));
        assert(q1.no_duplicates()) by {
            if runnable {
                assert forall|a: int, b: int| 0 <= a < q1.len() && 0 <= b < q1.len() && a != b implies q1[a] != q1[b] by {
                    if a == q1.len() - 1 {
                        assert(q[b] != prev);
                    } else if b == q1.len() - 1 {
                        assert(q[a] != prev);
                    }
                }
            }
        }
        assert forall|j: int| 0 <= j < scheds2.len() implies rr_wf(#[trigger] scheds2[j], t2) by {
            assert(rr_wf(scheds[j], threads));
            if j == i {
                assert forall|k: int| 0 <= k < q2.len() implies valid_thread(t2, #[trigger] q2[k])
                    && state_of(t2, q2[k]) == ThreadState::Ready(lp) by {
                    assert(q2[k] == q1[k + 1]);
                    assert(q1[k + 1] != next);
                    if k + 1 < q.len() {
                        assert(q1[k + 1] == q[k + 1]);
                    }
                }
                assert forall|t: ThreadId| valid_thread(t2, t) && state_of(t2, t) == ThreadState::Ready(lp)
                    implies #[trigger] q2.contains(t) by {
                    assert(t != next);
                    let k: int = if runnable && t == prev {
                        q1.len() - 1
                    } else {
                        assert(q.contains(t));
                        choose|k: int| 0 <= k < q.len() && q[k] == t
                    };
                    assert(q1[k] == t);
                    assert(k != 0);
                    assert(q2[k - 1] == t);
                }
                assert forall|t: ThreadId| valid_thread(t2, t) && #[trigger] state_of(t2, t) == ThreadState::Running(lp)
                    implies s2.current == Some(t) by {
                    if t != next {
                        assert(state_of(threads, t) == ThreadState::Running(lp));
                        assert(s.current == Some(t));
                    }
                }
                assert(q2.no_duplicates());
                assert(q2.len() < usize::MAX) by {
                    lemma_queue_len_bound(q2, t2);
                }
            } else {
                let qj = scheds[j].queue;
                assert(scheds[j].lp_id != lp);
                assert(scheds2[j] == scheds[j]);
                assert forall|k: int| 0 <= k < qj.len() implies valid_thread(t2, #[trigger] qj[k])
                    && state_of(t2, qj[k]) == ThreadState::Ready(scheds[j].lp_id) by {
                    assert(qj[k] != next);
                    assert(runnable ==> qj[k] != prev);
                }
                assert forall|t: ThreadId| valid_thread(t2, t) && state_of(t2, t) == ThreadState::Ready(scheds[j].lp_id)
                    implies #[trigger] qj.contains(t) by {
                }
                assert forall|t: ThreadId| valid_thread(t2, t) && #[trigger] state_of(t2, t) == ThreadState::Running(scheds[j].lp_id)
                    implies scheds[j].current == Some(t) by {
                }
            }
        }
        assert forall|t: ThreadId| #[trigger] valid_thread(t2, t) implies match state_of(t2, t) {
            ThreadState::Running(l) => lp_index(scheds2, l) is Some,
            ThreadState::Ready(l) => lp_index(scheds2, l) is Some,
            _ => true,
        } by {
            lemma_lp_index_same_ids(scheds, scheds2);
            lemma_lp_index_unique(scheds, i);
        }
    } else {
        assert(scheds2 =~= scheds);
    }
}

/// Blocking the thread that a scheduler runs, and marking that scheduler to switch, keeps the
/// schedulers in agreement with the thread table.
proof fn lemma_block_keeps_wf(scheds: Seq<RoundRobinView>, threads: Seq<Option<Thread>>, i: int, tid: ThreadId, reg: u64)
    requires
        system_wf(scheds, threads),
        0 <= i < scheds.len(),
        scheds[i].current == Some(tid),
        valid_thread(threads, tid),
        state_of(threads, tid) is Running,
    ensures
        system_wf(
            scheds.update(i, RoundRobinView { ctx_switch_pending: true, ..scheds[i] }),
            with_state(threads, tid, ThreadState::Blocked(reg)),
        ),
{
    let t2 = with_state(threads, tid, ThreadState::Blocked(reg));
    let scheds2 = scheds.update(i, RoundRobinView { ctx_switch_pending: true, ..scheds[i] });
    assert(forall|t: ThreadId| t != tid ==> #[trigger] valid_thread(t2, t) == valid_thread(threads, t));
    assert(forall|t: ThreadId| t != tid && valid_thread(threads, t) ==> #[trigger] state_of(t2, t) == state_of(threads, t));
    assert(state_of(t2, tid) == ThreadState::Blocked(reg));
    assert forall|j: int| 0 <= j < scheds2.len() implies rr_wf(#[trigger] scheds2[j], t2) by {
        assert(rr_wf(scheds[j], threads));
        let q = scheds[j].queue;
        assert(scheds2[j].queue == q && scheds2[j].lp_id == scheds[j].lp_id && scheds2[j].current == scheds[j].current);
        assert forall|k: int| 0 <= k < q.len() implies valid_thread(t2, #[trigger] q[k])
            && state_of(t2, q[k]) == ThreadState::Ready(scheds[j].lp_id) by {
            assert(q[k] != tid);
        }
        assert forall|t: ThreadId| valid_thread(t2, t) && state_of(t2, t) == ThreadState::Ready(scheds[j].lp_id)
            implies #[trigger] q.contains(t) by {
            assert(t != tid);
        }
        assert forall|t: ThreadId| valid_thread(t2, t) && #[trigger] state_of(t2, t) == ThreadState::Running(scheds[j].lp_id)
            implies scheds2[j].current == Some(t) by {
            assert(t != tid);
        }
    }
    assert forall|t: ThreadId| #[trigger] valid_thread(t2, t) implies match state_of(t2, t) {
        ThreadState::Running(l) => lp_index(scheds2, l) is Some,
        ThreadState::Ready(l) => lp_index(scheds2, l) is Some,
        _ => true,
    } by {
        lemma_lp_index_same_ids(scheds, scheds2);
    }
}

/// Least loaded schedulers are unique: the order breaks ties by the unique processor numbers.
proof fn lemma_least_loaded_unique(scheds: Seq<RoundRobinView>, i: int, j: int)
    requires
        least_loaded(scheds, i),
        least_loaded(scheds, j),
    ensures
        i == j || scheds[i].lp_id == scheds[j].lp_id,
{
}

/// Adding a thread through the scheduler at `i` (and marking a switch pending there) keeps the
/// schedulers in agreement with the thread table.
pub proof fn lemma_add_keeps_wf(scheds: Seq<RoundRobinView>, threads: Seq<Option<Thread>>, i: int, tid: ThreadId)
    requires
        system_wf(scheds, threads),
        0 <= i < scheds.len(),
        valid_thread(threads, tid),
    ensures
        ({
            let (res, s2, t2) = rr_add(scheds[i], threads, tid);
            system_wf(scheds.update(i, RoundRobinView { ctx_switch_pending: true, ..s2 }), t2)
        }),
{
    let (res, s2, t2) = rr_add(scheds[i], threads, tid);
    let s3 = RoundRobinView { ctx_switch_pending: true, ..s2 };
    let scheds2 = scheds.update(i, s3);
    assert(rr_wf(scheds[i], threads));
    if res is Ok {
        let lp = scheds[i].lp_id;
        let old_state = state_of(threads, tid);
        assert(t2 == with_state(threads, tid, ThreadState::Ready(lp)));
        assert(state_of(t2, tid) == ThreadState::Ready(lp));
        assert(forall|t: ThreadId| t != tid ==> #[trigger] valid_thread(t2, t) == valid_thread(threads, t));
        assert(forall|t: ThreadId| t != tid && valid_thread(threads, t) ==> #[trigger] state_of(t2, t) == state_of(threads, t));
        assert(!(old_state is Running || old_state is Ready));
        assert(!scheds[i].queue.contains(tid)) by {
            if scheds[i].queue.contains(tid) {
                let k = choose|k: int| 0 <= k < scheds[i].queue.len() && scheds[i].queue[k] == tid;
                assert(state_of(threads, scheds[i].queue[k]) == ThreadState::Ready(lp));
            }
        }
        assert forall|j: int| 0 <= j < scheds2.len() implies rr_wf(#[trigger] scheds2[j], t2) by {
            let q = scheds2[j].queue;
            if j == i {
                assert forall|k: int| 0 <= k < q.len() implies valid_thread(t2, #[trigger] q[k])
                    && state_of(t2, q[k]) == ThreadState::Ready(scheds2[j].lp_id) by {
                    if k < q.len() - 1 {
                        assert(q[k] == scheds[i].queue[k]);
                    }
                }
                assert forall|t: ThreadId| valid_thread(t2, t) && state_of(t2, t) == ThreadState::Ready(scheds2[j].lp_id)
                    implies #[trigger] q.contains(t) by {
                    if t == tid {
                        assert(q[q.len() - 1] == tid);
                    } else {
                        assert(scheds[i].queue.contains(t));
                        let k = choose|k: int| 0 <= k < scheds[i].queue.len() && scheds[i].queue[k] == t;
                        assert(q[k] == t);
                    }
                }
                assert(q.no_duplicates()) by {
                    assert forall|a: int, b: int| 0 <= a < q.len() && 0 <= b < q.len() && a != b implies q[a] != q[b] by {
                        if a == q.len() - 1 {
                            assert(scheds[i].queue[b] != tid);
                        } else if b == q.len() - 1 {
                            assert(scheds[i].queue[a] != tid);
                        }
                    }
                }
                assert(q.len() < usize::MAX) by {
                    assert(q.no_duplicates());
                    lemma_queue_len_bound(q, t2);
                }
            } else {
                assert(rr_wf(scheds[j], threads));
                assert(scheds[j].lp_id != lp);
                let qj = scheds[j].queue;
                assert forall|k: int| 0 <= k < qj.len() implies valid_thread(t2, #[trigger] qj[k])
                    && state_of(t2, qj[k]) == ThreadState::Ready(scheds[j].lp_id) by {
                    assert(qj[k] != tid);
                }
                assert forall|t: ThreadId| valid_thread(t2, t) && #[trigger] state_of(t2, t) == ThreadState::Running(scheds[j].lp_id)
                    implies scheds[j].current == Some(t) by {
                    assert(t != tid);
                }
                assert forall|t: ThreadId| valid_thread(t2, t) && state_of(t2, t) == ThreadState::Ready(scheds[j].lp_id)
                    implies #[trigger] qj.contains(t) by {
                    assert(t != tid);
                }
                assert(scheds2[j] == scheds[j]);
            }
        }
        assert forall|t: ThreadId| #[trigger] valid_thread(t2, t) implies match state_of(t2, t) {
            ThreadState::Running(l) => lp_index(scheds2, l) is Some,
            ThreadState::Ready(l) => lp_index(scheds2, l) is Some,
            _ => true,
        } by {
            lemma_lp_index_same_ids(scheds, scheds2);
            if t == tid {
                lemma_lp_index_unique(scheds, i);
            }
        }
    } else {
        assert forall|j: int| 0 <= j < scheds2.len() implies rr_wf(#[trigger] scheds2[j], t2) by {
            assert(rr_wf(scheds[j], threads));
        }
        assert forall|t: ThreadId| #[trigger] valid_thread(t2, t) implies match state_of(t2, t) {
            ThreadState::Running(l) => lp_index(scheds2, l) is Some,
            ThreadState::Ready(l) => lp_index(scheds2, l) is Some,
            _ => true,
        } by {
            lemma_lp_index_same_ids(scheds, scheds2);
        }
    }
}

/// Schedulers with the same processor numbers in the same places find the same processors.
pub proof fn lemma_lp_index_same_ids(a: Seq<RoundRobinView>, b: Seq<RoundRobinView>)
    requires
        a.len() == b.len(),
        forall|k: int| 0 <= k < a.len() ==> (#[trigger] a[k]).lp_id == b[k].lp_id,
    ensures
        forall|lp: LpId| #[trigger] lp_index(a, lp) == lp_index(b, lp),
    decreases a.len(),
{
    if a.len() > 0 {
        assert forall|k: int| 0 <= k < a.drop_last().len() implies (#[trigger] a.drop_last()[k]).lp_id == b.drop_last()[k].lp_id by {
            assert(a.drop_last()[k] == a[k]);
            assert(b.drop_last()[k] == b[k]);
        }
        lemma_lp_index_same_ids(a.drop_last(), b.drop_last());
        assert forall|lp: LpId| #[trigger] lp_index(a, lp) == lp_index(b, lp) by {
            assert(a.last().lp_id == b.last().lp_id);
            assert(lp_index(a.drop_last(), lp) == lp_index(b.drop_last(), lp));
        }
    }
}

/// A queue without duplicates of threads of the table is no longer than the table.
proof fn lemma_queue_len_bound(q: Seq<ThreadId>, threads: Seq<Option<Thread>>)
    requires
        q.no_duplicates(),
        forall|k: int| 0 <= k < q.len() ==> valid_thread(threads, #[trigger] q[k]),
        threads.len() < usize::MAX,
    ensures
        q.len() <= threads.len(),
{
    q.unique_seq_to_set();
    let n = threads.len() as usize;
    <usize as FiniteRange>::range_properties(0usize, n);
    let range = <usize as FiniteRange>::range_set(0usize, n);
    assert forall|x: ThreadId| q.to_set().contains(x) implies range.contains(x) by {
        let k = choose|k: int| 0 <= k < q.len() && q[k] == x;
        assert(valid_thread(threads, q[k]));
    }
    vstd::set_lib::lemma_len_subset(q.to_set(), range);
}

} // verus!
