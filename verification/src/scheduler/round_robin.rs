//! The round-robin scheduler of one logical processor.
use vstd::prelude::*;

use std::collections::VecDeque;

use crate::addr_map::{address_map_contents, AddressMap};
use crate::interrupt_routing::LpId;
use crate::scheduler::threads::{AddressSpaceId, Thread, ThreadId, ThreadState, ThreadTable};

verus! {

/// Hardware address space tag of an address space on a logical processor.
pub type HwAsid = u64;

/// Errors of a logical processor's scheduler.
#[derive(Debug, Clone, Copy, PartialEq, Eq, Structural)]
pub enum Error {
    NoRunnableThreads,
    ThreadAlreadyAssignedToLp,
    ThreadNotAssignedToThisLp,
}

/// Whether `tid` names a thread of the table.
pub open spec fn valid_thread(threads: Seq<Option<Thread>>, tid: ThreadId) -> bool {
    tid < threads.len() && threads[tid as int] is Some
}

/// The state of the thread `tid` of the table.
pub open spec fn state_of(threads: Seq<Option<Thread>>, tid: ThreadId) -> ThreadState {
    threads[tid as int]->0.state
}

/// The table with the state of thread `tid` replaced.
pub open spec fn with_state(threads: Seq<Option<Thread>>, tid: ThreadId, state: ThreadState) -> Seq<Option<Thread>> {
    threads.update(tid as int, Some(Thread { state, ..threads[tid as int]->0 }))
}

/// The position of the first occurrence of `tid` in the queue `q`.
pub open spec fn queue_position(q: Seq<ThreadId>, tid: ThreadId) -> Option<int>
    decreases q.len(),
{
    if q.len() == 0 {
        None
    } else if q[0] == tid {
        Some(0)
    } else {
        match queue_position(q.drop_first(), tid) {
            Some(i) => Some(i + 1),
            None => None,
        }
    }
}

pub proof fn lemma_queue_position(q: Seq<ThreadId>, tid: ThreadId)
    ensures
        match queue_position(q, tid) {
            Some(i) => 0 <= i < q.len() && q[i] == tid && forall|j: int| 0 <= j < i ==> #[trigger] q[j] != tid,
            None => !q.contains(tid),
        },
    decreases q.len(),
{
    if q.len() > 0 {
        lemma_queue_position(q.drop_first(), tid);
        assert forall|j: int| 1 <= j < q.len() implies #[trigger] q[j] == q.drop_first()[j - 1] by {}
        if queue_position(q.drop_first(), tid) is None && q[0] != tid {
            if q.contains(tid) {
                let k = choose|k: int| 0 <= k < q.len() && q[k] == tid;
                assert(q.drop_first().contains(tid)) by {
                    assert(q.drop_first()[k - 1] == tid);
                }
            }
        }
    }
}

/// The scheduling state of a round-robin scheduler.
pub struct RoundRobinView {
    pub lp_id: LpId,
    pub is_idle: bool,
    pub ctx_switch_pending: bool,
    pub queue: Seq<ThreadId>,
    pub current: Option<ThreadId>,
}

/// A round-robin scheduler: the threads ready on its logical processor, queued in order, and the
/// thread it runs.
pub struct RoundRobin {
    pub lp_id: LpId,
    pub quantum: u128,
    pub is_idle: bool,
    pub ctx_switch_pending: bool,
    pub run_queue: VecDeque<ThreadId>,
    pub current_handle: Option<ThreadId>,
    pub hwasid_map: AddressMap,
}

/// The scheduler of logical processor `s.lp_id` agrees with the thread table: its queue holds,
/// once each, exactly the threads ready on it, and it runs every thread running on it.
pub open spec fn rr_wf(s: RoundRobinView, threads: Seq<Option<Thread>>) -> bool {
    let q = s.queue;
    &&& q.no_duplicates()
    &&& q.len() < usize::MAX
    &&& forall|i: int| 0 <= i < q.len() ==> valid_thread(threads, #[trigger] q[i])
        && state_of(threads, q[i]) == ThreadState::Ready(s.lp_id)
    &&& forall|t: ThreadId| valid_thread(threads, t) && state_of(threads, t) == ThreadState::Ready(s.lp_id)
        ==> #[trigger] q.contains(t)
    &&& forall|t: ThreadId| valid_thread(threads, t) && #[trigger] state_of(threads, t) == ThreadState::Running(s.lp_id)
        ==> s.current == Some(t)
}

/// The previous thread of `s` can keep running: it still exists and is in the running state.
pub open spec fn previous_runnable(s: RoundRobinView, threads: Seq<Option<Thread>>) -> bool {
    &&& s.current is Some
    &&& valid_thread(threads, s.current->0)
    &&& state_of(threads, s.current->0) is Running
}

/// What `next` does to the scheduler `s` and the table: the result, the scheduler after and the
/// table after.
pub open spec fn rr_next(s: RoundRobinView, threads: Seq<Option<Thread>>) -> (Result<ThreadId, Error>, RoundRobinView, Seq<Option<Thread>>) {
    let runnable = previous_runnable(s, threads);
    if s.queue.len() == 0 {
        (
            if runnable { Ok(s.current->0) } else { Err(Error::NoRunnableThreads) },
            s,
            threads,
        )
    } else {
        let prev = s.current->0;
        let q1 = if runnable { s.queue.push(prev) } else { s.queue };
        let t1 = if runnable { with_state(threads, prev, ThreadState::Ready(s.lp_id)) } else { threads };
        let next = q1[0];
        (
            Ok(next),
            RoundRobinView { queue: q1.drop_first(), current: Some(next), is_idle: false, ..s },
            with_state(t1, next, ThreadState::Running(s.lp_id)),
        )
    }
}

/// What `add_thread` does to the scheduler `s` and the table.
pub open spec fn rr_add(s: RoundRobinView, threads: Seq<Option<Thread>>, tid: ThreadId) -> (Result<(), Error>, RoundRobinView, Seq<Option<Thread>>) {
    let st = state_of(threads, tid);
    if st is Running || st is Ready {
        (Err(Error::ThreadAlreadyAssignedToLp), s, threads)
    } else {
        (Ok(()), RoundRobinView { queue: s.queue.push(tid), ..s }, with_state(threads, tid, ThreadState::Ready(s.lp_id)))
    }
}

/// What `remove_thread` does to the scheduler `s`.
pub open spec fn rr_remove(s: RoundRobinView, tid: ThreadId) -> (Result<(), Error>, RoundRobinView) {
    if s.current == Some(tid) {
        (Ok(()), RoundRobinView { current: None, ..s })
    } else {
        match queue_position(s.queue, tid) {
            Some(i) => (Ok(()), RoundRobinView { queue: s.queue.remove(i), ..s }),
            None => (Err(Error::ThreadNotAssignedToThisLp), s),
        }
    }
}

/// Taking a thread off a processor undoes queueing it there: a thread queued by `add_thread`, which
/// the scheduler was not running, is the one `remove_thread` takes off, and the queue is as before.
pub proof fn lemma_remove_undoes_add(s: RoundRobinView, threads: Seq<Option<Thread>>, tid: ThreadId)
    requires
        rr_wf(s, threads),
        valid_thread(threads, tid),
        rr_add(s, threads, tid).0 is Ok,
        s.current != Some(tid),
    ensures
        rr_remove(rr_add(s, threads, tid).1, tid) == (Ok::<(), Error>(()), s),
{
    let q = s.queue;
    let added = rr_add(s, threads, tid).1;
    assert(!q.contains(tid)) by {
        if q.contains(tid) {
            let k = choose|k: int| 0 <= k < q.len() && q[k] == tid;
            assert(state_of(threads, q[k]) == ThreadState::Ready(s.lp_id));
        }
    }
    lemma_queue_position(added.queue, tid);
    let p = queue_position(added.queue, tid)->0;
    assert(added.queue[q.len() as int] == tid);
    if p < q.len() {
        assert(added.queue[p] == q[p]);
    }
    assert(p == q.len());
    assert(added.queue.remove(p) =~= q);
}

impl View for RoundRobin {
    type V = RoundRobinView;

    open spec fn view(&self) -> RoundRobinView {
        RoundRobinView {
            lp_id: self.lp_id,
            is_idle: self.is_idle,
            ctx_switch_pending: self.ctx_switch_pending,
            queue: self.run_queue@,
            current: self.current_handle,
        }
    }
}

impl RoundRobin {
    /// The scheduler of logical processor `lp_id`, switching threads every `quantum`.
    pub fn new(lp_id: LpId, quantum: u128) -> (r: Self)
        ensures
            r.lp_id == lp_id,
            r.quantum == quantum,
            !r.is_idle,
            !r.ctx_switch_pending,
            r.run_queue@ == Seq::<ThreadId>::empty(),
            r.current_handle is None,
            address_map_contents(r.hwasid_map).dom() == Set::<u64>::empty(),
    {
        RoundRobin {
            lp_id,
            quantum,
            is_idle: false,
            ctx_switch_pending: false,
            run_queue: VecDeque::new(),
            current_handle: None,
            hwasid_map: AddressMap::new(),
        }
    }

    pub fn get_lp_id(&self) -> (r: LpId)
        ensures
            r == self.lp_id,
    {
        self.lp_id
    }

    /// The thread this processor runs.
    pub fn get_tid(&self) -> (r: Option<ThreadId>)
        ensures
            r == self.current_handle,
    {
        self.current_handle
    }

    pub fn is_ctx_switch_pending(&self) -> (r: bool)
        ensures
            r == self.ctx_switch_pending,
    {
        self.ctx_switch_pending
    }

    pub fn set_ctx_switch_pending(&mut self)
        ensures
            *final(self) == (RoundRobin { ctx_switch_pending: true, ..*old(self) }),
    {
        self.ctx_switch_pending = true;
    }

    /// Clears the pending context switch; the caller arms the timer for the next quantum.
    pub fn clear_ctx_switch_pending(&mut self)
        ensures
            *final(self) == (RoundRobin { ctx_switch_pending: false, ..*old(self) }),
    {
        self.ctx_switch_pending = false;
    }

    pub fn is_idle(&self) -> (r: bool)
        ensures
            r == self.is_idle,
    {
        self.is_idle
    }

    /// Starts scheduling; the caller arms the timer for the first quantum.
    pub fn start(&mut self)
        ensures
            *final(self) == (RoundRobin { is_idle: false, ..*old(self) }),
    {
        self.is_idle = false;
    }

    pub fn stop(&mut self)
        ensures
            *final(self) == (RoundRobin { is_idle: true, ..*old(self) }),
    {
        self.is_idle = true;
    }

    /// The hardware tag of address space `asid` on this processor, if it has one.
    pub fn asid_to_hwasid(&self, asid: AddressSpaceId) -> (r: Option<HwAsid>)
        ensures
            address_map_contents(self.hwasid_map).contains_key(asid)
                ==> r == Some(address_map_contents(self.hwasid_map)[asid]),
            !address_map_contents(self.hwasid_map).contains_key(asid) ==> r is None,
    {
        self.hwasid_map.get(asid)
    }

    /// The number of threads assigned to this processor: queued and running.
    pub fn thread_count(&self) -> (r: usize)
        requires
            self.run_queue@.len() < usize::MAX,
        ensures
            r == self.run_queue@.len() + (if self.current_handle is Some { 1int } else { 0int }),
    {
        self.run_queue.len() + if self.current_handle.is_some() { 1 } else { 0 }
    }

    /// Picks the thread to run next. The previous thread, if it can keep running, goes to the back
    /// of the queue; the thread at the front runs. With an empty queue the previous thread keeps
    /// running, if it can.
    pub fn next(&mut self, threads: &mut ThreadTable) -> (r: Result<ThreadId, Error>)
        requires
            forall|i: int| 0 <= i < old(self).run_queue@.len() ==> valid_thread(old(threads)@, #[trigger] old(self).run_queue@[i]),
        ensures
            (r, final(self)@, final(threads)@) == rr_next(old(self)@, old(threads)@),
            final(threads).observers() == old(threads).observers(),
            final(self).quantum == old(self).quantum,
            final(self).hwasid_map == old(self).hwasid_map,
    {
        let previous = self.current_handle;
        let mut previous_is_runnable = false;
        if let Some(prev) = previous {
            if let Some(thread) = threads.get(prev) {
                previous_is_runnable = match thread.state {
                    ThreadState::Running(_) => true,
                    _ => false,
                };
            }
        }
        if self.run_queue.len() == 0 {
            return if previous_is_runnable {
                Ok(previous.unwrap())
            } else {
                Err(Error::NoRunnableThreads)
            };
        }
        if previous_is_runnable {
            let prev = previous.unwrap();
            threads.set_state(prev, ThreadState::Ready(self.lp_id));
            self.run_queue.push_back(prev);
        }
        let next = self.run_queue.pop_front().unwrap();
        assert(valid_thread(threads@, next));
        self.current_handle = Some(next);
        threads.set_state(next, ThreadState::Running(self.lp_id));
        self.is_idle = false;
        Ok(next)
    }

    /// Queues thread `tid` on this processor, unless it is already running or queued on one.
    pub fn add_thread(&mut self, threads: &mut ThreadTable, tid: ThreadId) -> (r: Result<(), Error>)
        requires
            valid_thread(old(threads)@, tid),
        ensures
            (r, final(self)@, final(threads)@) == rr_add(old(self)@, old(threads)@, tid),
            final(threads).observers() == old(threads).observers(),
            final(self).quantum == old(self).quantum,
            final(self).hwasid_map == old(self).hwasid_map,
    {
        let thread = threads.get(tid).unwrap();
        let already_assigned = match thread.state {
            ThreadState::Running(_) | ThreadState::Ready(_) => true,
            _ => false,
        };
        if already_assigned {
            Err(Error::ThreadAlreadyAssignedToLp)
        } else {
            self.run_queue.push_back(tid);
            threads.set_state(tid, ThreadState::Ready(self.lp_id));
            Ok(())
        }
    }

    /// Takes thread `tid` off this processor: stops running it, or takes it off the queue.
    pub fn remove_thread(&mut self, tid: ThreadId) -> (r: Result<(), Error>)
        ensures
            (r, final(self)@) == rr_remove(old(self)@, tid),
            final(self).quantum == old(self).quantum,
            final(self).hwasid_map == old(self).hwasid_map,
    {
        if self.current_handle == Some(tid) {
            self.current_handle = None;
            return Ok(());
        }
        let mut i: usize = 0;
        while i < self.run_queue.len()
            invariant
                i <= self.run_queue@.len(),
                self.run_queue@ == old(self).run_queue@,
                *self == *old(self),
                old(self).current_handle != Some(tid),
                forall|j: int| 0 <= j < i ==> self.run_queue@[j] != tid,
            decreases self.run_queue@.len() - i,
        {
            if self.run_queue[i] == tid {
                proof {
                    lemma_queue_position(self.run_queue@, tid);
                    if let Some(k) = queue_position(self.run_queue@, tid) {
                        assert(k == i);
                    }
                }
                self.run_queue.remove(i);
                return Ok(());
            }
            i = i + 1;
        }
        proof {
            lemma_queue_position(self.run_queue@, tid);
            if let Some(k) = queue_position(self.run_queue@, tid) {
                assert(self.run_queue@[k] == tid);
            }
        }
        Err(Error::ThreadNotAssignedToThisLp)
    }
}

} // verus!
