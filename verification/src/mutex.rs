//! The blocking mutex: a semaphore of one permit, and whether the permit is taken.
use vstd::prelude::*;

use crate::semaphore::{wait_succeeded, Semaphore, WaitResult, WaitStart, WaiterId};

verus! {

/// A mutex whose waiters block on its semaphore. The caller serializes the calls, and blocks and
/// wakes the threads.
pub struct MutexCore {
    permits: Semaphore,
    locked: bool,
}

impl MutexCore {
    /// The permits left.
    pub closed spec fn permits(&self) -> usize {
        self.permits.count_spec()
    }

    /// The waiters registered.
    pub closed spec fn waiters(&self) -> Seq<WaiterId> {
        self.permits.waiters_spec()
    }

    /// Whether the mutex is held.
    pub closed spec fn held(&self) -> bool {
        self.locked
    }

    pub fn new() -> (r: Self)
        ensures
            r.permits() == 1,
            r.waiters() == Seq::<WaiterId>::empty(),
            !r.held(),
    {
        MutexCore { permits: Semaphore::new(1), locked: false }
    }

    pub fn is_locked(&self) -> (r: bool)
        ensures
            r == self.held(),
    {
        self.locked
    }

    /// Takes the mutex if its permit is free.
    pub fn try_lock(&mut self) -> (r: bool)
        ensures
            r == (old(self).permits() > 0),
            r ==> final(self).held() && final(self).permits() == old(self).permits() - 1,
            !r ==> final(self).held() == old(self).held() && final(self).permits() == old(self).permits(),
            final(self).waiters() == old(self).waiters(),
    {
        if self.permits.try_wait() {
            self.locked = true;
            true
        } else {
            false
        }
    }

    /// Starts to take the mutex, by a wait whose deadline has or has not passed: a free permit is
    /// taken at once; otherwise the wait times out, or the caller registers and blocks.
    pub fn begin_lock(&mut self, deadline_passed: bool, registrations: &Vec<Option<WaitResult>>) -> (r: WaitStart)
        ensures
            old(self).permits() > 0 ==> r == WaitStart::Acquired && final(self).held()
                && final(self).permits() == old(self).permits() - 1
                && final(self).waiters() == old(self).waiters(),
            old(self).permits() == 0 && deadline_passed ==> r == WaitStart::TimedOut
                && final(self).held() == old(self).held() && final(self).permits() == 0
                && final(self).waiters() == old(self).waiters(),
            old(self).permits() == 0 && !deadline_passed ==> r == WaitStart::Block
                && final(self).held() == old(self).held() && final(self).permits() == 0
                && final(self).waiters() == crate::semaphore::pending_only(registrations@, old(self).waiters()),
            old(self).permits() == 0 && !deadline_passed
                ==> final(self).waiters() == old(self).waiters().filter(crate::semaphore::still_waiting(registrations@)),
    {
        let r = self.permits.begin_wait(deadline_passed, registrations);
        if r == WaitStart::Acquired {
            self.locked = true;
        }
        r
    }

    /// Registers a waiter about to block for the mutex.
    pub fn register_waiter(&mut self, waiter: WaiterId)
        ensures
            final(self).permits() == old(self).permits(),
            final(self).held() == old(self).held(),
            final(self).waiters() == old(self).waiters().push(waiter),
    {
        self.permits.register(waiter);
    }

    /// Ends a blocked wait: a signal handed the permit over and the mutex is now held; a deadline
    /// leaves it as it was.
    pub fn finish_lock(&mut self, result: WaitResult) -> (r: bool)
        ensures
            r == (result == WaitResult::Signaled),
            r ==> final(self).held(),
            !r ==> final(self).held() == old(self).held(),
            final(self).permits() == old(self).permits(),
            final(self).waiters() == old(self).waiters(),
    {
        if wait_succeeded(result) {
            self.locked = true;
            true
        } else {
            false
        }
    }

    /// Releases the mutex: its permit goes to the first pending waiter, returned for the caller to
    /// wake, or back to the semaphore.
    pub fn unlock(&mut self, registrations: &mut Vec<Option<WaitResult>>) -> (r: Option<WaiterId>)
        ensures
            !final(self).held(),
            match crate::semaphore::first_pending(old(registrations)@, old(self).waiters()) {
                Some(k) => {
                    let w = old(self).waiters()[k];
                    &&& r == Some(w)
                    &&& final(registrations)@ == old(registrations)@.update(w as int, Some(WaitResult::Signaled))
                    &&& final(self).waiters() == old(self).waiters().skip(k + 1)
                    &&& final(self).permits() == old(self).permits()
                },
                None => {
                    &&& r is None
                    &&& final(registrations)@ == old(registrations)@
                    &&& final(self).waiters() == Seq::<WaiterId>::empty()
                    &&& final(self).permits() == (if old(self).permits() == usize::MAX {
                        usize::MAX as int
                    } else {
                        old(self).permits() + 1
                    })
                },
            },
    {
        self.locked = false;
        self.permits.signal(registrations)
    }
}

impl Default for MutexCore {
    fn default() -> (r: Self)
        ensures
            r.permits() == 1,
            r.waiters() == Seq::<WaiterId>::empty(),
            !r.held(),
    {
        Self::new()
    }
}

} // verus!
