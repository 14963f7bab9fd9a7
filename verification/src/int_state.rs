//! Nested saving and restoring of each logical processor's interrupt enable state. Only the
//! outermost save records the state and only the matching outermost restore brings it back.
use vstd::prelude::*;

verus! {

/// The state after saving with interrupts currently `enabled`.
pub open spec fn save_step(depth: nat, saved: bool, enabled: bool) -> (nat, bool) {
    (depth + 1, if depth == 0 { enabled } else { saved })
}

/// The state after a restore, and whether the restore unmasks interrupts: only the outermost
/// restore does, and only where interrupts were enabled at the outermost save.
pub open spec fn restore_step(depth: nat, saved: bool) -> ((nat, bool), bool) {
    (((depth - 1) as nat, saved), depth == 1 && saved)
}

/// The interrupt save state of every logical processor.
pub struct IntState {
    save_counts: Vec<usize>,
    saved_int_bits: Vec<bool>,
}

impl IntState {
    /// For each logical processor, its nesting depth and saved interrupt enable bit.
    pub closed spec fn view(&self) -> Seq<(nat, bool)> {
        Seq::new(self.save_counts@.len(), |i: int| (self.save_counts@[i] as nat, self.saved_int_bits@[i]))
    }

    pub closed spec fn wf(&self) -> bool {
        self.save_counts@.len() == self.saved_int_bits@.len()
    }

    /// The state of `num_lps` logical processors, none of which has saved.
    pub fn new(num_lps: usize) -> (r: Self)
        ensures
            r.wf(),
            r.view().len() == num_lps,
            forall|i: int| 0 <= i < num_lps ==> #[trigger] r.view()[i] == (0nat, false),
    {
        let mut save_counts: Vec<usize> = Vec::new();
        let mut saved_int_bits: Vec<bool> = Vec::new();
        let mut i: usize = 0;
        while i < num_lps
            invariant
                i <= num_lps,
                save_counts@.len() == i,
                saved_int_bits@.len() == i,
                forall|j: int| 0 <= j < i ==> save_counts@[j] == 0 && !saved_int_bits@[j],
            decreases num_lps - i,
        {
            save_counts.push(0);
            saved_int_bits.push(false);
            i = i + 1;
        }
        IntState { save_counts, saved_int_bits }
    }

    /// The number of logical processors tracked.
    pub fn num_lps(&self) -> (r: usize)
        requires
            self.wf(),
        ensures
            r == self.view().len(),
    {
        self.save_counts.len()
    }

    /// How deeply logical processor `lp_idx` is nested in saves.
    pub fn save_count(&self, lp_idx: usize) -> (r: usize)
        requires
            self.wf(),
            lp_idx < self.view().len(),
        ensures
            r == self.view()[lp_idx as int].0,
    {
        self.save_counts[lp_idx]
    }

    /// Records a save on logical processor `lp_idx`, whose interrupts are currently `enabled`.
    /// The caller masks interrupts afterwards.
    pub fn save_int(&mut self, lp_idx: usize, enabled: bool)
        requires
            old(self).wf(),
            lp_idx < old(self).view().len(),
            old(self).view()[lp_idx as int].0 < usize::MAX,
        ensures
            final(self).wf(),
            final(self).view() == old(self).view().update(
                lp_idx as int,
                save_step(old(self).view()[lp_idx as int].0, old(self).view()[lp_idx as int].1, enabled),
            ),
    {
        let count = self.save_counts[lp_idx] + 1;
        self.save_counts.set(lp_idx, count);
        if count == 1 {
            self.saved_int_bits.set(lp_idx, enabled);
        }
        assert(self.view() =~= old(self).view().update(
            lp_idx as int,
            save_step(old(self).view()[lp_idx as int].0, old(self).view()[lp_idx as int].1, enabled),
        ));
    }

    /// Records a restore on logical processor `lp_idx` and tells whether interrupts are to be
    /// unmasked.
    pub fn restore_int(&mut self, lp_idx: usize) -> (unmask: bool)
        requires
            old(self).wf(),
            lp_idx < old(self).view().len(),
            old(self).view()[lp_idx as int].0 > 0,
        ensures
            final(self).wf(),
            ({
                let (next, u) = restore_step(old(self).view()[lp_idx as int].0, old(self).view()[lp_idx as int].1);
                &&& final(self).view() == old(self).view().update(lp_idx as int, next)
                &&& unmask == u
            }),
    {
        let count = self.save_counts[lp_idx] - 1;
        self.save_counts.set(lp_idx, count);
        let unmask = count == 0 && self.saved_int_bits[lp_idx];
        assert(self.view() =~= old(self).view().update(
            lp_idx as int,
            restore_step(old(self).view()[lp_idx as int].0, old(self).view()[lp_idx as int].1).0,
        ));
        unmask
    }
}

/// The state of one logical processor after saving with each of `states` in turn.
pub open spec fn saves(depth: nat, saved: bool, states: Seq<bool>) -> (nat, bool)
    decreases states.len(),
{
    if states.len() == 0 {
        (depth, saved)
    } else {
        let (d, s) = saves(depth, saved, states.drop_last());
        save_step(d, s, states.last())
    }
}

/// After `n` saves from a processor with no save outstanding, the depth is `n` and the saved bit
/// is the interrupt state of the first save.
pub proof fn lemma_saves(saved: bool, states: Seq<bool>)
    requires
        states.len() > 0,
    ensures
        saves(0, saved, states) == (states.len(), states[0]),
    decreases states.len(),
{
    if states.len() > 1 {
        lemma_saves(saved, states.drop_last());
        assert(states.drop_last()[0] == states[0]);
    } else {
        assert(states.drop_last().len() == 0);
        assert(saves(0, saved, states.drop_last()) == (0nat, saved));
    }
}

/// Restores undo saves: after nested saves, every restore but the last leaves interrupts masked,
/// and the last unmasks them exactly when they were enabled at the first save.
pub proof fn lemma_nested_save_restore(saved: bool, states: Seq<bool>, k: nat)
    requires
        states.len() > 0,
        k < states.len(),
    ensures
        ({
            let (d, s) = saves(0, saved, states);
            restore_step((d - k) as nat, s).1 == (k == states.len() - 1 && states[0])
        }),
{
    lemma_saves(saved, states);
}

} // verus!
