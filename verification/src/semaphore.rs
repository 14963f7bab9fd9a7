//! The bookkeeping of the counting semaphore shared by kernel mutexes and firmware events.
//! Registration and signal run under the same lock; a signal or a deadline wins each waiter
//! exactly once, and a signal that finds a pending waiter hands its count directly to it.
use vstd::prelude::*;

verus! {

/// The outcome recorded in a waiter's registration.
#[derive(Debug, Clone, Copy, PartialEq, Eq, Structural)]
pub enum WaitResult {
    Pending,
    Signaled,
    TimedOut,
}

/// A waiter registration, by its index among the registrations. A registration whose slot is
/// `None` has been dropped by its waiter.
pub type WaiterId = usize;

/// Whether registration `w` is alive and still pending.
pub open spec fn is_pending(registrations: Seq<Option<WaitResult>>, w: WaiterId) -> bool {
    w < registrations.len() && registrations[w as int] == Some(WaitResult::Pending)
}

/// The position in `queue` of the first pending registration.
pub open spec fn first_pending(registrations: Seq<Option<WaitResult>>, queue: Seq<WaiterId>) -> Option<int>
    decreases queue.len(),
{
    if queue.len() == 0 {
        None
    } else if is_pending(registrations, queue[0]) {
        Some(0)
    } else {
        match first_pending(registrations, queue.drop_first()) {
            Some(k) => Some(k + 1),
            None => None,
        }
    }
}

proof fn lemma_first_pending(registrations: Seq<Option<WaitResult>>, queue: Seq<WaiterId>)
    ensures
        match first_pending(registrations, queue) {
            Some(k) => 0 <= k < queue.len() && is_pending(registrations, queue[k])
                && forall|j: int| 0 <= j < k ==> !is_pending(registrations, #[trigger] queue[j]),
            None => forall|j: int| 0 <= j < queue.len() ==> !is_pending(registrations, #[trigger] queue[j]),
        },
    decreases queue.len(),
{
    if queue.len() > 0 {
        lemma_first_pending(registrations, queue.drop_first());
        assert forall|j: int| 1 <= j < queue.len() implies #[trigger] queue[j] == queue.drop_first()[j - 1] by {}
    }
}

/// The registrations of `queue` that are still pending, in order.
pub open spec fn pending_only(registrations: Seq<Option<WaitResult>>, queue: Seq<WaiterId>) -> Seq<WaiterId>
    decreases queue.len(),
{
    if queue.len() == 0 {
        Seq::empty()
    } else {
        let rest = pending_only(registrations, queue.drop_last());
        if is_pending(registrations, queue.last()) {
            rest.push(queue.last())
        } else {
            rest
        }
    }
}

/// What a wait does after checking the semaphore under its lock.
#[derive(Debug, Clone, Copy, PartialEq, Eq, Structural)]
pub enum WaitStart {
    /// A count was available and has been taken.
    Acquired,
    /// The deadline has passed without a count.
    TimedOut,
    /// The caller must register, arm its deadline and block.
    Block,
}

/// The state of a semaphore: its count and the queue of registered waiters.
pub struct Semaphore {
    count: usize,
    waiters: Vec<WaiterId>,
}

impl Semaphore {
    pub closed spec fn count_spec(&self) -> usize {
        self.count
    }

    pub closed spec fn waiters_spec(&self) -> Seq<WaiterId> {
        self.waiters@
    }

    pub fn new(count: usize) -> (r: Self)
        ensures
            r.count_spec() == count,
            r.waiters_spec() == Seq::<WaiterId>::empty(),
    {
        Semaphore { count, waiters: Vec::new() }
    }

    /// Takes a count if one is available.
    pub fn try_wait(&mut self) -> (r: bool)
        ensures
            r == (old(self).count_spec() > 0),
            final(self).count_spec() == (if r { old(self).count_spec() - 1 } else { old(self).count_spec() as int }),
            final(self).waiters_spec() == old(self).waiters_spec(),
    {
        if self.count == 0 {
            false
        } else {
            self.count = self.count - 1;
            true
        }
    }

    /// Checks the semaphore for a wait whose deadline has or has not passed. A wait that must
    /// block finds the queue cleared of registrations that are no longer pending, since timed-out
    /// waiters otherwise accumulate forever if never signaled.
    pub fn begin_wait(&mut self, deadline_passed: bool, registrations: &Vec<Option<WaitResult>>) -> (r: WaitStart)
        ensures
            old(self).count_spec() > 0 ==> r == WaitStart::Acquired
                && final(self).count_spec() == old(self).count_spec() - 1
                && final(self).waiters_spec() == old(self).waiters_spec(),
            old(self).count_spec() == 0 && deadline_passed ==> r == WaitStart::TimedOut
                && final(self).count_spec() == 0 && final(self).waiters_spec() == old(self).waiters_spec(),
            old(self).count_spec() == 0 && !deadline_passed ==> r == WaitStart::Block
                && final(self).count_spec() == 0
                && final(self).waiters_spec() == pending_only(registrations@, old(self).waiters_spec()),
            old(self).count_spec() == 0 && !deadline_passed
                ==> final(self).waiters_spec() == old(self).waiters_spec().filter(still_waiting(registrations@)),
            old(self).count_spec() == 0 && !deadline_passed ==> forall|w: WaiterId|
                #[trigger] final(self).waiters_spec().contains(w) <==> old(self).waiters_spec().contains(w)
                    && w < registrations@.len() && registrations@[w as int] == Some(WaitResult::Pending),
    {
        if self.count > 0 {
            self.count = self.count - 1;
            return WaitStart::Acquired;
        }
        if deadline_passed {
            return WaitStart::TimedOut;
        }
        let mut kept: Vec<WaiterId> = Vec::new();
        let mut i: usize = 0;
        while i < self.waiters.len()
            invariant
                i <= self.waiters@.len(),
                kept@ == pending_only(registrations@, self.waiters@.take(i as int)),
            decreases self.waiters@.len() - i,
        {
            let w = self.waiters[i];
            assert(self.waiters@.take(i + 1).drop_last() =~= self.waiters@.take(i as int));
            if w < registrations.len() {
                if registrations[w] == Some(WaitResult::Pending) {
                    kept.push(w);
                }
            }
            i = i + 1;
        }
        assert(self.waiters@.take(self.waiters@.len() as int) =~= self.waiters@);
        proof {
            lemma_blocking_wait_keeps_pending(registrations@, self.waiters@);
        }
        self.waiters = kept;
        WaitStart::Block
    }

    /// Queues the registration of a waiter that is about to block.
    pub fn register(&mut self, waiter: WaiterId)
        ensures
            final(self).count_spec() == old(self).count_spec(),
            final(self).waiters_spec() == old(self).waiters_spec().push(waiter),
    {
        self.waiters.push(waiter);
    }

    /// Signals the semaphore. Waiters are taken off the queue in order until one still pending is
    /// found; that one is marked signaled and returned, for the caller to wake. Without one, the
    /// count grows by one (saturating) and the queue is left empty.
    pub fn signal(&mut self, registrations: &mut Vec<Option<WaitResult>>) -> (r: Option<WaiterId>)
        ensures
            match first_pending(old(registrations)@, old(self).waiters_spec()) {
                Some(k) => {
                    let w = old(self).waiters_spec()[k];
                    &&& r == Some(w)
                    &&& final(registrations)@ == old(registrations)@.update(w as int, Some(WaitResult::Signaled))
                    &&& final(self).waiters_spec() == old(self).waiters_spec().skip(k + 1)
                    &&& final(self).count_spec() == old(self).count_spec()
                },
                None => {
                    &&& r is None
                    &&& final(registrations)@ == old(registrations)@
                    &&& final(self).waiters_spec() == Seq::<WaiterId>::empty()
                    &&& final(self).count_spec() == (if old(self).count_spec() == usize::MAX {
                        usize::MAX as int
                    } else {
                        old(self).count_spec() + 1
                    })
                },
            },
    {
        proof {
            lemma_first_pending(registrations@, self.waiters@);
        }
        let mut i: usize = 0;
        while i < self.waiters.len()
            invariant
                i <= self.waiters@.len(),
                registrations@ == old(registrations)@,
                self.waiters@ == old(self).waiters_spec(),
                self.count == old(self).count_spec(),
                forall|j: int| 0 <= j < i ==> !is_pending(registrations@, #[trigger] self.waiters@[j]),
            decreases self.waiters@.len() - i,
        {
            let w = self.waiters[i];
            if w < registrations.len() && registrations[w] == Some(WaitResult::Pending) {
                registrations.set(w, Some(WaitResult::Signaled));
                proof {
                    lemma_first_pending(old(registrations)@, old(self).waiters_spec());
                    if let Some(k) = first_pending(old(registrations)@, old(self).waiters_spec()) {
                        assert(k == i);
                    }
                }
                let mut rest: Vec<WaiterId> = Vec::new();
                let mut j: usize = i + 1;
                while j < self.waiters.len()
                    invariant
                        i < j <= self.waiters@.len(),
                        rest@ == self.waiters@.subrange(i + 1, j as int),
                    decreases self.waiters@.len() - j,
                {
                    rest.push(self.waiters[j]);
                    j = j + 1;
                    assert(rest@ =~= self.waiters@.subrange(i + 1, j as int));
                }
                assert(rest@ =~= self.waiters@.skip(i + 1));
                self.waiters = rest;
                return Some(w);
            }
            i = i + 1;
        }
        self.waiters = Vec::new();
        self.count = self.count.saturating_add(1);
        None
    }

    /// Drops all counts.
    pub fn reset(&mut self)
        ensures
            final(self).count_spec() == 0,
            final(self).waiters_spec() == old(self).waiters_spec(),
    {
        self.count = 0;
    }
}

/// A signal and a deadline each win a waiter at most once: a waiter whose deadline timed it out is
/// never chosen by a later signal, and a waiter a signal won is no longer pending, so a later
/// deadline does not wake it.
pub proof fn lemma_single_winner(registrations: Seq<Option<WaitResult>>, queue: Seq<WaiterId>, w: WaiterId)
    requires
        w < registrations.len(),
    ensures
        first_pending(registrations.update(w as int, Some(WaitResult::TimedOut)), queue) matches Some(k)
            ==> queue[k] != w,
        !is_pending(registrations.update(w as int, Some(WaitResult::Signaled)), w),
{
    let timed_out = registrations.update(w as int, Some(WaitResult::TimedOut));
    lemma_first_pending(timed_out, queue);
}

/// A waiter's deadline has expired: the registration times out if it is still pending, and only
/// then is the waiter to be woken.
pub fn notify_deadline(registration: &mut Option<WaitResult>) -> (wake: bool)
    ensures
        wake == (*old(registration) == Some(WaitResult::Pending)),
        wake ==> *final(registration) == Some(WaitResult::TimedOut),
        !wake ==> *final(registration) == *old(registration),
{
    if *registration == Some(WaitResult::Pending) {
        *registration = Some(WaitResult::TimedOut);
        true
    } else {
        false
    }
}

/// Whether a wait that blocked was won by a signal rather than its deadline.
pub fn wait_succeeded(result: WaitResult) -> (r: bool)
    ensures
        r == (result == WaitResult::Signaled),
{
    result == WaitResult::Signaled
}


/// Whether registration `w` is alive and pending, read directly from the registrations.
pub open spec fn still_waiting(registrations: Seq<Option<WaitResult>>) -> spec_fn(WaiterId) -> bool {
    |w: WaiterId| w < registrations.len() && registrations[w as int] == Some(WaitResult::Pending)
}

/// A blocking wait clears the queue of waiters that no longer wait and keeps the others: the new
/// queue is the old one filtered to the registrations still pending, in the same order, so a
/// waiter still pending is never dropped and one no longer pending never stays.
pub proof fn lemma_blocking_wait_keeps_pending(registrations: Seq<Option<WaitResult>>, queue: Seq<WaiterId>)
    ensures
        pending_only(registrations, queue) == queue.filter(still_waiting(registrations)),
        forall|w: WaiterId| #[trigger] pending_only(registrations, queue).contains(w)
            <==> queue.contains(w) && w < registrations.len() && registrations[w as int] == Some(WaitResult::Pending),
    decreases queue.len(),
{
    reveal(Seq::filter);
    let p = still_waiting(registrations);
    if queue.len() > 0 {
        lemma_blocking_wait_keeps_pending(registrations, queue.drop_last());
    }
    assert(pending_only(registrations, queue) == queue.filter(p));
    #[allow(deprecated)]
    queue.filter_lemma(p);
    assert forall|w: WaiterId| #[trigger] queue.filter(p).contains(w)
        implies queue.contains(w) && w < registrations.len() && registrations[w as int] == Some(WaitResult::Pending) by {
        let k = choose|k: int| 0 <= k < queue.filter(p).len() && queue.filter(p)[k] == w;
        assert(p(queue.filter(p)[k]));
        lemma_filter_subset(queue, p, k);
    }
    assert forall|w: WaiterId| queue.contains(w) && w < registrations.len() && registrations[w as int] == Some(WaitResult::Pending)
        implies #[trigger] queue.filter(p).contains(w) by {
        let i = choose|i: int| 0 <= i < queue.len() && queue[i] == w;
        assert(p(queue[i]));
    }
}

/// Every element of a filtered sequence is an element of the sequence.
proof fn lemma_filter_subset(queue: Seq<WaiterId>, p: spec_fn(WaiterId) -> bool, k: int)
    requires
        0 <= k < queue.filter(p).len(),
    ensures
        queue.contains(queue.filter(p)[k]),
    decreases queue.len(),
{
    reveal(Seq::filter);
    if queue.len() > 0 {
        let sub = queue.drop_last().filter(p);
        if k < sub.len() {
            lemma_filter_subset(queue.drop_last(), p, k);
            let j = choose|j: int| 0 <= j < queue.drop_last().len() && queue.drop_last()[j] == sub[k];
            assert(queue[j] == queue.drop_last()[j]);
        } else {
            assert(queue.filter(p)[k] == queue.last());
            assert(queue[queue.len() - 1] == queue.last());
        }
    }
}

} // verus!
