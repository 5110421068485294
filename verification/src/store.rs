//! Process-wide shared state holding the last-known logical state of every
//! tracked input.
//!
//! In the running system the store is the one resource touched from two
//! execution contexts: the capture handler writes it from interrupt context
//! and the foreground loop reads it on its own schedule.  Mutual exclusion is
//! supplied by the caller's critical-section discipline (interrupts disabled
//! for the duration of the copy, never across hardware register access); this
//! module owns the value itself and proves that the protocol over it is
//! tear-free: a write replaces the stored snapshot wholesale, and a read
//! hands back the stored snapshot wholesale, so a reader can only ever
//! observe a value that was, at some instant, a fully-formed snapshot.

use vstd::prelude::*;

use crate::snapshot::InputSnapshot;
use crate::snapshot::all_inactive;

verus! {

/// Owns exactly one [`InputSnapshot`] at a time.  Initialized to all-`false`
/// at startup, mutated only through [`InputStateStore::write`], and read
/// through [`InputStateStore::read`], which copies the whole value.
///
/// The ghost `history` records every value the store has held, oldest first:
/// the initial all-inactive snapshot, then the argument of each `write` in
/// call order.  Contracts over it state the publication protocol: what a
/// read returns always stands whole in the history.
pub struct InputStateStore {
    width: usize,
    current: InputSnapshot,
    history: Ghost<Seq<Seq<bool>>>,
}

impl InputStateStore {
    /// Every value the store has ever held, oldest first.  The first entry
    /// is the initial all-inactive snapshot; each later entry is the
    /// argument of one `write`, in call order.
    pub closed spec fn history(&self) -> Seq<Seq<bool>> {
        self.history@
    }

    /// The snapshot the store holds now.
    pub closed spec fn snap(&self) -> Seq<bool> {
        self.current@
    }

    /// How many logical channels the store tracks.
    pub closed spec fn width_spec(&self) -> nat {
        self.width as nat
    }

    /// Well-formedness: the history starts at the all-inactive snapshot,
    /// ends at the value held now, and every recorded snapshot covers
    /// exactly the tracked channels.
    pub closed spec fn wf(&self) -> bool {
        &&& self.history@.len() >= 1
        &&& self.history@[0] =~= all_inactive(self.width as nat)
        &&& self.history@.last() =~= self.current@
        &&& forall|i: int|
            0 <= i < self.history@.len() ==> (#[trigger] self.history@[i]).len()
                == self.width as nat
    }

    /// A fresh store tracking `width` channels, holding the all-inactive
    /// snapshot.
    pub fn new(width: usize) -> (s: Self)
        ensures
            s.wf(),
            s.width_spec() == width as nat,
            s.snap() =~= all_inactive(width as nat),
            s.history() =~= seq![all_inactive(width as nat)],
    {
        let current = InputSnapshot::new_inactive(width);
        let ghost history = seq![current@];
        InputStateStore { width, current, history: Ghost(history) }
    }

    /// Replaces the stored snapshot wholesale.  Called only by the capture
    /// handler, once per event-source firing; successive writes are totally
    /// ordered by firing order, which the history records.
    pub fn write(&mut self, s: InputSnapshot)
        requires
            old(self).wf(),
            s@.len() == old(self).width_spec(),
        ensures
            final(self).wf(),
            final(self).width_spec() == old(self).width_spec(),
            final(self).snap() == s@,
            final(self).history() =~= old(self).history().push(s@),
    {
        self.current = s;
        self.history = Ghost(self.history@.push(self.current@));
    }

    /// Returns a copy of the most recently written snapshot.  The result is
    /// always a value that stands whole in the history — the argument of
    /// some past `write`, or the initial all-inactive snapshot — never an
    /// element-wise mix of two of them.
    pub fn read(&self) -> (r: InputSnapshot)
        requires
            self.wf(),
        ensures
            r@ == self.snap(),
            r@.len() == self.width_spec(),
            exists|i: int| 0 <= i < self.history().len() && r@ =~= self.history()[i],
    {
        proof {
            assert(self.snap() =~= self.history()[self.history().len() - 1]);
        }
        self.current.clone()
    }
}

/// Snapshot atomicity: whatever interleaving of `write` and `read` calls has
/// happened, the value a `read` returns — the snapshot held now — is equal
/// to some entry of the history, that is, to some past `write`'s argument or
/// to the initial all-inactive snapshot.  No element-wise mix of two
/// different writes can ever be observed.
pub proof fn lemma_snapshot_atomicity(s: InputStateStore)
    requires
        s.wf(),
    ensures
        exists|i: int| 0 <= i < s.history().len() && s.snap() =~= s.history()[i],
        s.history()[0] =~= all_inactive(s.width_spec()),
{
    assert(s.snap() =~= s.history()[s.history().len() - 1]);
}

} // verus!
