//! The unit of publication from capture to foreground logic: the full set of
//! logical channel states at one instant.

use vstd::prelude::*;

verus! {

/// The state of every tracked logical channel at one instant: an ordered,
/// fixed-length sequence of booleans, one per channel, `true` meaning
/// "currently considered active".  Immutable once produced; a new snapshot
/// fully replaces the old one.
pub struct InputSnapshot {
    channels: Vec<bool>,
}

/// The snapshot of a system in which no channel is active: `width` channels,
/// all `false`.  Every store starts out holding this value.
pub open spec fn all_inactive(width: nat) -> Seq<bool> {
    Seq::new(width, |i: int| false)
}

impl View for InputSnapshot {
    type V = Seq<bool>;

    closed spec fn view(&self) -> Seq<bool> {
        self.channels@
    }
}

impl InputSnapshot {
    /// The initial snapshot: `width` channels, none active.
    pub fn new_inactive(width: usize) -> (s: Self)
        ensures
            s@ =~= all_inactive(width as nat),
    {
        let mut channels: Vec<bool> = Vec::new();
        let mut i: usize = 0;
        while i < width
            invariant
                i <= width,
                channels@ =~= all_inactive(i as nat),
            decreases width - i,
        {
            channels.push(false);
            i = i + 1;
        }
        InputSnapshot { channels }
    }

    /// A snapshot holding exactly the given per-channel states.
    pub fn from_states(states: Vec<bool>) -> (s: Self)
        ensures
            s@ == states@,
    {
        InputSnapshot { channels: states }
    }

    /// How many logical channels the snapshot covers.
    pub fn width(&self) -> (n: usize)
        ensures
            n == self@.len(),
    {
        self.channels.len()
    }

    /// The per-channel states as a plain vector.
    pub fn to_states(&self) -> (v: Vec<bool>)
        ensures
            v@ == self@,
    {
        self.channels.clone()
    }

    /// Whether channel `i` is considered active in this snapshot.
    pub fn channel(&self, i: usize) -> (b: bool)
        requires
            i < self@.len(),
        ensures
            b == self@[i as int],
    {
        self.channels[i]
    }
}

impl Clone for InputSnapshot {
    /// A copy with exactly the same per-channel states.
    fn clone(&self) -> (s: Self)
        ensures
            s@ =~= self@,
    {
        InputSnapshot { channels: self.channels.clone() }
    }
}

} // verus!
