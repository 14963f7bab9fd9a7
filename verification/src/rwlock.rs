//! The blocking reader-writer lock: its lock word (zero when free, minus one when held
//! exclusively, the number of readers when shared) and the waitlists of the threads blocked on it.
use vstd::prelude::*;

use concurrent_queue::ConcurrentQueue;

use crate::scheduler::threads::ObserverId;

verus! {

#[verifier::external_type_specification]
#[verifier::external_body]
#[verifier::reject_recursive_types(T)]
pub struct ExConcurrentQueue<T>(ConcurrentQueue<T>);

/// The observers a queue holds, from its front to its back.
pub uninterp spec fn queued_observers(q: ConcurrentQueue<ObserverId>) -> Seq<ObserverId>;

/// Whether a queue was closed to further pushes.
pub uninterp spec fn queue_closed(q: ConcurrentQueue<ObserverId>) -> bool;

/// The capacity a queue was made with: `None` for an unbounded queue.
pub uninterp spec fn queue_capacity(q: ConcurrentQueue<ObserverId>) -> Option<nat>;

/// `ConcurrentQueue::unbounded`: an empty queue of unlimited capacity, open to pushes.
#[verifier::external_body]
fn queue_unbounded() -> (q: ConcurrentQueue<ObserverId>)
    ensures
        queued_observers(q) == Seq::<ObserverId>::empty(),
        !queue_closed(q),
        queue_capacity(q) is None,
{
    ConcurrentQueue::unbounded()
}

/// `ConcurrentQueue::push` on a queue used by one context at a time: a push that succeeds puts the
/// value at the back and one that fails leaves the queue as it was; a closed queue refuses every
/// push, and an open unbounded queue takes every push. When a bounded queue counts as full is not
/// stated. (The position counters of an unbounded queue are not modelled: they overflow only
/// after more pushes than a machine performs.)
#[verifier::external_body]
fn queue_push(q: &mut ConcurrentQueue<ObserverId>, value: ObserverId) -> (r: Result<(), ()>)
    ensures
        queue_closed(*final(q)) == queue_closed(*old(q)),
        queue_capacity(*final(q)) == queue_capacity(*old(q)),
        r is Ok ==> queued_observers(*final(q)) == queued_observers(*old(q)).push(value),
        r is Err ==> queued_observers(*final(q)) == queued_observers(*old(q)),
        queue_closed(*old(q)) ==> r is Err,
        !queue_closed(*old(q)) && queue_capacity(*old(q)) is None ==> r is Ok,
{
    q.push(value).map_err(|_| ())
}

/// `ConcurrentQueue::pop` on a queue used by one context at a time: the value at the front, if
/// there is one.
#[verifier::external_body]
fn queue_pop(q: &mut ConcurrentQueue<ObserverId>) -> (r: Option<ObserverId>)
    ensures
        queue_closed(*final(q)) == queue_closed(*old(q)),
        queue_capacity(*final(q)) == queue_capacity(*old(q)),
        queued_observers(*old(q)).len() > 0 ==> r == Some(queued_observers(*old(q))[0])
            && queued_observers(*final(q)) == queued_observers(*old(q)).drop_first(),
        queued_observers(*old(q)).len() == 0 ==> r is None && queued_observers(*final(q)) == queued_observers(*old(q)),
{
    q.pop().ok()
}

/// `ConcurrentQueue::len` on a queue used by one context at a time: the number of values in it.
#[verifier::external_body]
fn queue_len(q: &ConcurrentQueue<ObserverId>) -> (r: usize)
    ensures
        r == queued_observers(*q).len(),
{
    q.len()
}

/// The threads waiting for the lock in one mode, each by the observer that wakes it.
pub struct Waitlist(ConcurrentQueue<ObserverId>);

impl Waitlist {
    /// The observers waiting, in the order they registered.
    pub closed spec fn view(&self) -> Seq<ObserverId> {
        queued_observers(self.0)
    }

    /// The waitlist is unbounded and stays open to registrations.
    pub closed spec fn wf(&self) -> bool {
        !queue_closed(self.0) && queue_capacity(self.0) is None
    }

    /// Registers `observer` to be woken when the lock is released.
    pub fn register_observer(&mut self, observer: ObserverId)
        requires
            old(self).wf(),
        ensures
            final(self).wf(),
            final(self)@ == old(self)@.push(observer),
    {
        let pushed = queue_push(&mut self.0, observer);
        assert(pushed is Ok);
    }

    pub fn len(&self) -> (r: usize)
        ensures
            r == self@.len(),
    {
        queue_len(&self.0)
    }

    /// Takes the first observer off the list, if any.
    pub fn pop(&mut self) -> (r: Option<ObserverId>)
        requires
            old(self).wf(),
        ensures
            final(self).wf(),
            old(self)@.len() > 0 ==> r == Some(old(self)@[0]) && final(self)@ == old(self)@.drop_first(),
            old(self)@.len() == 0 ==> r is None && final(self)@ == old(self)@,
    {
        queue_pop(&mut self.0)
    }
}

impl Default for Waitlist {
    fn default() -> (r: Self)
        ensures
            r@ == Seq::<ObserverId>::empty(),
            r.wf(),
    {
        Waitlist(queue_unbounded())
    }
}

/// The lock word of a lock free to take.
pub const UNLOCKED: i64 = 0;

/// The lock word of a lock held exclusively.
pub const EXCLUSIVE: i64 = -1;

/// The lock word after an attempt to take the lock exclusively: only a free lock is taken.
pub open spec fn after_try_exclusive(raw: i64) -> Option<i64> {
    if raw == UNLOCKED { Some(EXCLUSIVE) } else { None }
}

/// The lock word after an attempt to share the lock: a lock not held exclusively gains a reader.
pub open spec fn after_try_shared(raw: i64) -> Option<i64> {
    if raw >= 0 { Some((raw + 1) as i64) } else { None }
}

/// A reader-writer lock whose waiters block: the lock word and the waitlists of the readers and of
/// the writers. The caller serializes the calls, and blocks and wakes the threads.
pub struct RwLockCore {
    raw_lock: i64,
    waitlist_shared: Waitlist,
    waitlist_exclusive: Waitlist,
}

impl RwLockCore {
    /// The lock word.
    pub closed spec fn raw(&self) -> i64 {
        self.raw_lock
    }

    /// The readers waiting, in order.
    pub closed spec fn shared_waiters(&self) -> Seq<ObserverId> {
        self.waitlist_shared@
    }

    /// The writers waiting, in order.
    pub closed spec fn exclusive_waiters(&self) -> Seq<ObserverId> {
        self.waitlist_exclusive@
    }

    /// The lock word is free, exclusive or a count of readers, and the waitlists stay open.
    pub closed spec fn wf(&self) -> bool {
        &&& self.raw_lock >= EXCLUSIVE
        &&& self.waitlist_shared.wf()
        &&& self.waitlist_exclusive.wf()
    }

    pub fn new() -> (r: Self)
        ensures
            r.wf(),
            r.raw() == UNLOCKED,
            r.shared_waiters() == Seq::<ObserverId>::empty(),
            r.exclusive_waiters() == Seq::<ObserverId>::empty(),
    {
        RwLockCore { raw_lock: UNLOCKED, waitlist_shared: Waitlist::default(), waitlist_exclusive: Waitlist::default() }
    }

    /// The lock word: zero when free, minus one when held exclusively, else the number of readers.
    pub fn raw_lock(&self) -> (r: i64)
        ensures
            r == self.raw(),
    {
        self.raw_lock
    }

    /// The observers to wake after a release: the first waiting writer if there is one, which leaves
    /// the list; otherwise every waiting reader, which empties that list.
    pub fn wake_next(&mut self) -> (woken: Vec<ObserverId>)
        requires
            old(self).wf(),
        ensures
            final(self).wf(),
            final(self).raw() == old(self).raw(),
            old(self).exclusive_waiters().len() > 0 ==> {
                &&& woken@ == seq![old(self).exclusive_waiters()[0]]
                &&& final(self).exclusive_waiters() == old(self).exclusive_waiters().drop_first()
                &&& final(self).shared_waiters() == old(self).shared_waiters()
            },
            old(self).exclusive_waiters().len() == 0 ==> {
                &&& woken@ == old(self).shared_waiters()
                &&& final(self).shared_waiters() == Seq::<ObserverId>::empty()
                &&& final(self).exclusive_waiters() == old(self).exclusive_waiters()
            },
    {
        let mut woken: Vec<ObserverId> = Vec::new();
        if self.waitlist_exclusive.len() > 0 {
            if let Some(observer) = self.waitlist_exclusive.pop() {
                woken.push(observer);
            }
            assert(woken@ =~= seq![old(self).exclusive_waiters()[0]]);
        } else {
            let ghost all = self.waitlist_shared@;
            while self.waitlist_shared.len() > 0
                invariant
                    self.wf(),
                    self.raw_lock == old(self).raw_lock,
                    self.waitlist_exclusive@ == old(self).waitlist_exclusive@,
                    all == old(self).waitlist_shared@,
                    woken@ + self.waitlist_shared@ == all,
                decreases self.waitlist_shared@.len(),
            {
                let observer = self.waitlist_shared.pop().unwrap();
                woken.push(observer);
                assert(woken@ + self.waitlist_shared@ =~= all);
            }
            assert(woken@ =~= all);
        }
        woken
    }

    /// Takes the lock exclusively if it is free.
    pub fn try_lock_exclusive(&mut self) -> (r: bool)
        requires
            old(self).wf(),
        ensures
            final(self).wf(),
            r == (after_try_exclusive(old(self).raw()) is Some),
            final(self).raw() == (match after_try_exclusive(old(self).raw()) { Some(v) => v, None => old(self).raw() }),
            final(self).shared_waiters() == old(self).shared_waiters(),
            final(self).exclusive_waiters() == old(self).exclusive_waiters(),
    {
        if self.raw_lock == UNLOCKED {
            self.raw_lock = EXCLUSIVE;
            true
        } else {
            false
        }
    }

    /// Releases the exclusively held lock and returns the observers to wake.
    pub fn unlock_exclusive(&mut self) -> (woken: Vec<ObserverId>)
        requires
            old(self).wf(),
            old(self).raw() == EXCLUSIVE,
        ensures
            final(self).wf(),
            final(self).raw() == UNLOCKED,
            old(self).exclusive_waiters().len() > 0 ==> {
                &&& woken@ == seq![old(self).exclusive_waiters()[0]]
                &&& final(self).exclusive_waiters() == old(self).exclusive_waiters().drop_first()
                &&& final(self).shared_waiters() == old(self).shared_waiters()
            },
            old(self).exclusive_waiters().len() == 0 ==> {
                &&& woken@ == old(self).shared_waiters()
                &&& final(self).shared_waiters() == Seq::<ObserverId>::empty()
                &&& final(self).exclusive_waiters() == old(self).exclusive_waiters()
            },
    {
        self.raw_lock = UNLOCKED;
        self.wake_next()
    }

    /// Shares the lock if it is not held exclusively.
    pub fn try_lock_shared(&mut self) -> (r: bool)
        requires
            old(self).wf(),
            old(self).raw() < i64::MAX,
        ensures
            final(self).wf(),
            r == (after_try_shared(old(self).raw()) is Some),
            final(self).raw() == (match after_try_shared(old(self).raw()) { Some(v) => v, None => old(self).raw() }),
            final(self).shared_waiters() == old(self).shared_waiters(),
            final(self).exclusive_waiters() == old(self).exclusive_waiters(),
    {
        if self.raw_lock >= 0 {
            self.raw_lock = self.raw_lock + 1;
            true
        } else {
            false
        }
    }

    /// Gives up one share of the lock and returns the observers to wake.
    pub fn unlock_shared(&mut self) -> (woken: Vec<ObserverId>)
        requires
            old(self).wf(),
            old(self).raw() > 0,
        ensures
            final(self).wf(),
            final(self).raw() == old(self).raw() - 1,
            old(self).exclusive_waiters().len() > 0 ==> {
                &&& woken@ == seq![old(self).exclusive_waiters()[0]]
                &&& final(self).exclusive_waiters() == old(self).exclusive_waiters().drop_first()
                &&& final(self).shared_waiters() == old(self).shared_waiters()
            },
            old(self).exclusive_waiters().len() == 0 ==> {
                &&& woken@ == old(self).shared_waiters()
                &&& final(self).shared_waiters() == Seq::<ObserverId>::empty()
                &&& final(self).exclusive_waiters() == old(self).exclusive_waiters()
            },
    {
        self.raw_lock = self.raw_lock - 1;
        self.wake_next()
    }

    /// Registers a reader that blocks until the lock is released.
    pub fn wait_shared(&mut self, observer: ObserverId)
        requires
            old(self).wf(),
        ensures
            final(self).wf(),
            final(self).raw() == old(self).raw(),
            final(self).shared_waiters() == old(self).shared_waiters().push(observer),
            final(self).exclusive_waiters() == old(self).exclusive_waiters(),
    {
        self.waitlist_shared.register_observer(observer);
    }

    /// Registers a writer that blocks until the lock is released.
    pub fn wait_exclusive(&mut self, observer: ObserverId)
        requires
            old(self).wf(),
        ensures
            final(self).wf(),
            final(self).raw() == old(self).raw(),
            final(self).shared_waiters() == old(self).shared_waiters(),
            final(self).exclusive_waiters() == old(self).exclusive_waiters().push(observer),
    {
        self.waitlist_exclusive.register_observer(observer);
    }
}

/// A writer excludes everyone: while the lock is held exclusively no attempt to take it succeeds,
/// and while it is shared no writer gets it.
pub proof fn lemma_exclusion(raw: i64)
    requires
        raw >= EXCLUSIVE,
    ensures
        raw == EXCLUSIVE ==> after_try_exclusive(raw) is None && after_try_shared(raw) is None,
        raw > 0 ==> after_try_exclusive(raw) is None,
        raw == UNLOCKED ==> after_try_exclusive(raw) == Some(EXCLUSIVE) && after_try_shared(raw) == Some(1i64),
{
}

} // verus!
