//! The fixed-capacity ring buffer that carries deferred interpreter work from interrupt context to
//! the kernel worker threads without allocating.
use vstd::prelude::*;

use crate::uacpi_host::UacpiStatus;

verus! {

/// Number of work items a queue holds.
pub const QUEUE_CAPACITY: usize = 256;

/// A first-in first-out queue of at most `QUEUE_CAPACITY` items.
pub struct Queue<T> {
    items: Vec<Option<T>>,
    head: usize,
    len: usize,
}

impl<T: Copy> Queue<T> {
    /// The queued items, oldest first.
    pub closed spec fn view(&self) -> Seq<T> {
        Seq::new(self.len as nat, |i: int| self.items@[(self.head + i) % (QUEUE_CAPACITY as int)]->0)
    }

    /// The ring holds `QUEUE_CAPACITY` slots and the `len` slots from `head` on are filled.
    pub closed spec fn wf(&self) -> bool {
        &&& self.items@.len() == QUEUE_CAPACITY
        &&& self.head < QUEUE_CAPACITY
        &&& self.len <= QUEUE_CAPACITY
        &&& forall|i: int| 0 <= i < self.len ==> (#[trigger] self.items@[(self.head + i) % (QUEUE_CAPACITY as int)]) is Some
    }

    pub fn new() -> (r: Self)
        ensures
            r.wf(),
            r.view() == Seq::<T>::empty(),
    {
        let mut items: Vec<Option<T>> = Vec::new();
        let mut i: usize = 0;
        while i < QUEUE_CAPACITY
            invariant
                i <= QUEUE_CAPACITY,
                items@.len() == i,
            decreases QUEUE_CAPACITY - i,
        {
            items.push(None);
            i = i + 1;
        }
        let r = Queue { items, head: 0, len: 0 };
        assert(r.view() =~= Seq::<T>::empty());
        r
    }

    pub fn len(&self) -> (r: usize)
        requires
            self.wf(),
        ensures
            r == self.view().len(),
            r <= QUEUE_CAPACITY,
    {
        self.len
    }

    /// Appends `work` behind the queued items; refused when the queue is full.
    pub fn push(&mut self, work: T) -> (r: bool)
        requires
            old(self).wf(),
        ensures
            final(self).wf(),
            r == (old(self).view().len() < QUEUE_CAPACITY),
            r ==> final(self).view() == old(self).view().push(work),
            !r ==> final(self).view() == old(self).view(),
    {
        if self.len == QUEUE_CAPACITY {
            return false;
        }
        let ghost old_view = self.view();
        let slot = (self.head + self.len) % QUEUE_CAPACITY;
        self.items.set(slot, Some(work));
        self.len = self.len + 1;
        assert forall|i: int| 0 <= i < self.len implies (#[trigger] self.items@[(self.head + i) % (QUEUE_CAPACITY as int)]) is Some by {
            if i < self.len - 1 {
                assert((self.head + i) % (QUEUE_CAPACITY as int) != slot as int);
            }
        }
        assert(self.view() =~= old_view.push(work)) by {
            assert forall|i: int| 0 <= i < self.len - 1 implies self.view()[i] == old_view[i] by {
                assert((self.head + i) % (QUEUE_CAPACITY as int) != slot as int);
            }
        }
        true
    }

    /// Removes and returns the oldest item, if any.
    pub fn pop(&mut self) -> (r: Option<T>)
        requires
            old(self).wf(),
        ensures
            final(self).wf(),
            old(self).view().len() == 0 ==> r is None && final(self).view() == old(self).view(),
            old(self).view().len() > 0 ==> r == Some(old(self).view()[0])
                && final(self).view() == old(self).view().drop_first(),
    {
        if self.len == 0 {
            return None;
        }
        let ghost old_view = self.view();
        let ghost old_head = self.head;
        let item = self.items[self.head];
        assert(old_view[0] == item->0) by {
            assert((self.head + 0) % (QUEUE_CAPACITY as int) == self.head as int);
        }
        self.items.set(self.head, None);
        self.head = (self.head + 1) % QUEUE_CAPACITY;
        self.len = self.len - 1;
        assert forall|i: int| 0 <= i < self.len implies (#[trigger] self.items@[(self.head + i) % (QUEUE_CAPACITY as int)]) is Some by {
            assert((self.head + i) % (QUEUE_CAPACITY as int) == (old_head + (i + 1)) % (QUEUE_CAPACITY as int));
            assert((old_head + (i + 1)) % (QUEUE_CAPACITY as int) != old_head as int);
        }
        assert(self.view() =~= old_view.drop_first()) by {
            assert forall|i: int| 0 <= i < self.len implies self.view()[i] == old_view[i + 1] by {
                assert((self.head + i) % (QUEUE_CAPACITY as int) == (old_head + (i + 1)) % (QUEUE_CAPACITY as int));
                assert((old_head + (i + 1)) % (QUEUE_CAPACITY as int) != old_head as int);
            }
        }
        item
    }
}

/// A deferred call: the handler and the context handed to it.
#[derive(Debug, Clone, Copy, PartialEq, Eq, Structural)]
pub struct Work {
    pub handler: usize,
    pub context: usize,
}

/// The two kinds of deferred work, each run by a worker thread of its own so that a blocked GPE
/// handler does not hold up notifications.
#[derive(Debug, Clone, Copy, PartialEq, Eq, Structural)]
pub enum WorkKind {
    GpeExecution,
    Notification,
}

/// The queues of the two workers and the number of calls scheduled and not yet completed.
pub struct WorkQueues {
    gpe: Queue<Work>,
    notify: Queue<Work>,
    outstanding: usize,
}

impl WorkQueues {
    /// The calls queued for the worker of `kind`, oldest first.
    pub closed spec fn queued(&self, kind: WorkKind) -> Seq<Work> {
        match kind {
            WorkKind::GpeExecution => self.gpe.view(),
            WorkKind::Notification => self.notify.view(),
        }
    }

    /// The calls scheduled and not yet completed.
    pub closed spec fn outstanding_spec(&self) -> usize {
        self.outstanding
    }

    /// Both rings are well formed, and every queued call counts as outstanding.
    pub closed spec fn wf(&self) -> bool {
        &&& self.gpe.wf()
        &&& self.notify.wf()
        &&& self.outstanding >= self.gpe.view().len() + self.notify.view().len()
    }

    pub fn new() -> (r: Self)
        ensures
            r.wf(),
            r.queued(WorkKind::GpeExecution) == Seq::<Work>::empty(),
            r.queued(WorkKind::Notification) == Seq::<Work>::empty(),
            r.outstanding_spec() == 0,
    {
        WorkQueues { gpe: Queue::new(), notify: Queue::new(), outstanding: 0 }
    }

    pub fn outstanding(&self) -> (r: usize)
        ensures
            r == self.outstanding_spec(),
    {
        self.outstanding
    }

    /// Schedules `handler` with `context` on the worker of `kind`: a missing handler or an unknown
    /// kind is an invalid argument, work before the workers exist is refused, and a full queue is
    /// out of memory. Accepted work counts as outstanding; the caller then signals the worker.
    pub fn schedule_work(&mut self, kind: Option<WorkKind>, handler: Option<usize>, context: usize, initialized: bool) -> (r: UacpiStatus)
        requires
            old(self).wf(),
            old(self).outstanding_spec() < usize::MAX,
        ensures
            final(self).wf(),
            handler is None || kind is None ==> r == UacpiStatus::InvalidArgument && *final(self) == *old(self),
            handler is Some && kind is Some && !initialized ==> r == UacpiStatus::InitLevelMismatch && *final(self) == *old(self),
            handler is Some && kind is Some && initialized ==> {
                let k = kind->0;
                let w = Work { handler: handler->0, context };
                if old(self).queued(k).len() < QUEUE_CAPACITY {
                    &&& r == UacpiStatus::Success
                    &&& final(self).queued(k) == old(self).queued(k).push(w)
                    &&& final(self).queued(other_kind(k)) == old(self).queued(other_kind(k))
                    &&& final(self).outstanding_spec() == old(self).outstanding_spec() + 1
                } else {
                    r == UacpiStatus::OutOfMemory && *final(self) == *old(self)
                }
            },
    {
        let handler = match handler {
            Some(h) => h,
            None => return UacpiStatus::InvalidArgument,
        };
        let kind = match kind {
            Some(k) => k,
            None => return UacpiStatus::InvalidArgument,
        };
        if !initialized {
            return UacpiStatus::InitLevelMismatch;
        }
        let work = Work { handler, context };
        let pushed = match kind {
            WorkKind::GpeExecution => {
                if self.gpe.len() == QUEUE_CAPACITY {
                    false
                } else {
                    self.gpe.push(work)
                }
            },
            WorkKind::Notification => {
                if self.notify.len() == QUEUE_CAPACITY {
                    false
                } else {
                    self.notify.push(work)
                }
            },
        };
        if !pushed {
            return UacpiStatus::OutOfMemory;
        }
        self.outstanding = self.outstanding + 1;
        UacpiStatus::Success
    }

    /// Takes the oldest call off the queue of the worker of `kind`, if any; it stays outstanding
    /// until the worker completes it.
    pub fn take_work(&mut self, kind: WorkKind) -> (r: Option<Work>)
        requires
            old(self).wf(),
        ensures
            final(self).wf(),
            final(self).outstanding_spec() == old(self).outstanding_spec(),
            final(self).queued(other_kind(kind)) == old(self).queued(other_kind(kind)),
            old(self).queued(kind).len() == 0 ==> r is None && final(self).queued(kind) == old(self).queued(kind),
            old(self).queued(kind).len() > 0 ==> r == Some(old(self).queued(kind)[0])
                && final(self).queued(kind) == old(self).queued(kind).drop_first()
                && final(self).outstanding_spec() > final(self).queued(WorkKind::GpeExecution).len()
                    + final(self).queued(WorkKind::Notification).len(),
    {
        match kind {
            WorkKind::GpeExecution => self.gpe.pop(),
            WorkKind::Notification => self.notify.pop(),
        }
    }

    /// Records that a worker completed a call it took.
    pub fn complete_work(&mut self)
        requires
            old(self).wf(),
            old(self).outstanding_spec() > old(self).queued(WorkKind::GpeExecution).len()
                + old(self).queued(WorkKind::Notification).len(),
        ensures
            final(self).wf(),
            final(self).outstanding_spec() == old(self).outstanding_spec() - 1,
            final(self).queued(WorkKind::GpeExecution) == old(self).queued(WorkKind::GpeExecution),
            final(self).queued(WorkKind::Notification) == old(self).queued(WorkKind::Notification),
    {
        self.outstanding = self.outstanding - 1;
    }
}

/// The other worker's kind.
pub open spec fn other_kind(kind: WorkKind) -> WorkKind {
    match kind {
        WorkKind::GpeExecution => WorkKind::Notification,
        WorkKind::Notification => WorkKind::GpeExecution,
    }
}

/// Waiting for all deferred work is refused in interrupt context; elsewhere the caller waits
/// until nothing is outstanding.
pub fn work_completion_status(interrupt_depth: usize) -> (r: Option<UacpiStatus>)
    ensures
        interrupt_depth != 0 ==> r == Some(UacpiStatus::InvalidArgument),
        interrupt_depth == 0 ==> r is None,
{
    if interrupt_depth != 0 {
        Some(UacpiStatus::InvalidArgument)
    } else {
        None
    }
}

} // verus!
