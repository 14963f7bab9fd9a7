//! Threads, the table that holds them, and the wakers that end a blocked wait.
use vstd::prelude::*;

use crate::interrupt_routing::LpId;

verus! {

/// Index of a thread in the thread table.
pub type ThreadId = usize;

/// Identifier of an address space.
pub type AddressSpaceId = u64;

/// Identifier of an observer registered for a thread's exit.
pub type ObserverId = u64;

/// The scheduling state of a thread.
#[derive(Debug, Clone, Copy, PartialEq, Eq, Structural)]
pub enum ThreadState {
    /// Running on the logical processor.
    Running(LpId),
    /// Queued on the run queue of the logical processor.
    Ready(LpId),
    /// Waiting; only the waker of this registration may resume it.
    Blocked(u64),
    /// Runnable but assigned to no logical processor.
    NeedsLpAssignment,
}

/// A thread: its address space, entry point, the processor it is pinned to if any, and its state.
#[derive(Debug, Clone, Copy, PartialEq, Eq, Structural)]
pub struct Thread {
    pub asid: AddressSpaceId,
    pub entry_point: usize,
    pub affinity: Option<LpId>,
    pub state: ThreadState,
}

impl Thread {
    /// A new thread, not yet assigned to a logical processor.
    pub fn new(asid: AddressSpaceId, entry_point: usize) -> (r: Self)
        ensures
            r == (Thread { asid, entry_point, affinity: None, state: ThreadState::NeedsLpAssignment }),
    {
        Thread { asid, entry_point, affinity: None, state: ThreadState::NeedsLpAssignment }
    }
}

/// The table of all threads, indexed by thread ID. A free slot is reused by the next thread.
pub struct ThreadTable {
    slots: Vec<Option<Thread>>,
    exit_observers: Vec<(ThreadId, ObserverId)>,
}

/// The index of the first free slot of `slots`.
pub open spec fn first_free(slots: Seq<Option<Thread>>) -> Option<int>
    decreases slots.len(),
{
    if slots.len() == 0 {
        None
    } else if slots[0] is None {
        Some(0)
    } else {
        match first_free(slots.drop_first()) {
            Some(i) => Some(i + 1),
            None => None,
        }
    }
}

pub proof fn lemma_first_free(slots: Seq<Option<Thread>>)
    ensures
        match first_free(slots) {
            Some(i) => 0 <= i < slots.len() && slots[i] is None
                && forall|j: int| 0 <= j < i ==> (#[trigger] slots[j]) is Some,
            None => forall|j: int| 0 <= j < slots.len() ==> (#[trigger] slots[j]) is Some,
        },
    decreases slots.len(),
{
    if slots.len() > 0 {
        lemma_first_free(slots.drop_first());
        assert forall|j: int| 1 <= j < slots.len() implies #[trigger] slots[j] == slots.drop_first()[j - 1] by {}
    }
}

impl ThreadTable {
    /// The slots of the table.
    pub closed spec fn view(&self) -> Seq<Option<Thread>> {
        self.slots@
    }

    /// The observers registered for thread exits, in registration order.
    pub closed spec fn observers(&self) -> Seq<(ThreadId, ObserverId)> {
        self.exit_observers@
    }

    pub fn new() -> (r: Self)
        ensures
            r@ == Seq::<Option<Thread>>::empty(),
            r.observers() == Seq::<(ThreadId, ObserverId)>::empty(),
    {
        ThreadTable { slots: Vec::new(), exit_observers: Vec::new() }
    }

    /// Stores `thread` in the first free slot, or in a new slot at the end, and returns its ID.
    pub fn add_element(&mut self, thread: Thread) -> (tid: ThreadId)
        ensures
            match first_free(old(self)@) {
                Some(i) => tid == i && final(self)@ == old(self)@.update(i, Some(thread)),
                None => tid == old(self)@.len() && final(self)@ == old(self)@.push(Some(thread)),
            },
            final(self).observers() == old(self).observers(),
    {
        proof {
            lemma_first_free(self.slots@);
        }
        let mut i: usize = 0;
        while i < self.slots.len()
            invariant
                i <= self.slots@.len(),
                self.slots@ == old(self)@,
                self.exit_observers@ == old(self).observers(),
                forall|j: int| 0 <= j < i ==> (#[trigger] self.slots@[j]) is Some,
            decreases self.slots@.len() - i,
        {
            if self.slots[i].is_none() {
                proof {
                    lemma_first_free(self.slots@);
                    if let Some(k) = first_free(self.slots@) {
                        assert(k == i);
                    }
                }
                self.slots.set(i, Some(thread));
                return i;
            }
            i = i + 1;
        }
        self.slots.push(Some(thread));
        i
    }

    /// The number of slots of the table.
    pub fn len(&self) -> (r: usize)
        ensures
            r == self@.len(),
    {
        self.slots.len()
    }

    /// The thread with ID `tid`, if there is one.
    pub fn get(&self, tid: ThreadId) -> (r: Option<Thread>)
        ensures
            tid < self@.len() ==> r == self@[tid as int],
            tid >= self@.len() ==> r is None,
    {
        if tid < self.slots.len() {
            self.slots[tid]
        } else {
            None
        }
    }

    /// Sets the state of the thread with ID `tid`.
    pub fn set_state(&mut self, tid: ThreadId, state: ThreadState)
        requires
            tid < old(self)@.len(),
            old(self)@[tid as int] is Some,
        ensures
            final(self)@ == old(self)@.update(tid as int, Some(Thread { state, ..old(self)@[tid as int]->0 })),
            final(self).observers() == old(self).observers(),
    {
        let mut thread = self.slots[tid].unwrap();
        thread.state = state;
        self.slots.set(tid, Some(thread));
    }

    /// Sets the processor the thread with ID `tid` is pinned to.
    pub fn set_affinity(&mut self, tid: ThreadId, affinity: Option<LpId>)
        requires
            tid < old(self)@.len(),
            old(self)@[tid as int] is Some,
        ensures
            final(self)@ == old(self)@.update(tid as int, Some(Thread { affinity, ..old(self)@[tid as int]->0 })),
            final(self).observers() == old(self).observers(),
    {
        let mut thread = self.slots[tid].unwrap();
        thread.affinity = affinity;
        self.slots.set(tid, Some(thread));
    }

    /// Removes the thread with ID `tid` and returns it, if there is one.
    pub fn remove_element(&mut self, tid: ThreadId) -> (r: Option<Thread>)
        ensures
            tid < old(self)@.len() ==> r == old(self)@[tid as int] && final(self)@ == old(self)@.update(tid as int, None),
            tid >= old(self)@.len() ==> r is None && final(self)@ == old(self)@,
            final(self).observers() == old(self).observers(),
    {
        if tid < self.slots.len() {
            let r = self.slots[tid];
            self.slots.set(tid, None);
            r
        } else {
            None
        }
    }

    /// Registers `observer` to be notified when the thread with ID `tid` exits.
    pub fn register_exit_observer(&mut self, tid: ThreadId, observer: ObserverId)
        ensures
            final(self)@ == old(self)@,
            final(self).observers() == old(self).observers().push((tid, observer)),
    {
        self.exit_observers.push((tid, observer));
    }
}

/// One registration of a blocked wait, rather than just a thread ID: late notifications must never
/// wake a later wait by the same thread, or by a thread that reuses its ID.
#[derive(Debug, Clone, Copy, PartialEq, Eq)]
pub struct Waker {
    pub thread_id: ThreadId,
    pub lp_id: LpId,
    pub registration: u64,
    pub notified: bool,
}

impl Waker {
    /// The waker of registration `registration` of thread `thread_id`, which blocked on logical
    /// processor `lp_id`.
    pub fn new(thread_id: ThreadId, lp_id: LpId, registration: u64) -> (r: Self)
        ensures
            r.thread_id == thread_id,
            r.lp_id == lp_id,
            r.registration == registration,
            !r.notified,
    {
        Waker { thread_id, lp_id, registration, notified: false }
    }

    /// Marks the waker notified and tells whether the thread is to be woken: only on the first
    /// notification.
    pub fn notify(&mut self) -> (wake: bool)
        ensures
            wake == !old(self).notified,
            final(self).notified,
            final(self).thread_id == old(self).thread_id,
            final(self).lp_id == old(self).lp_id,
            final(self).registration == old(self).registration,
    {
        let wake = !self.notified;
        self.notified = true;
        wake
    }
}

} // verus!
