//! Edge detectors and the per-channel edge-resolution rule.
//!
//! In the edge-triggered designs every logical channel is implemented by two
//! hardware edge detectors on its physical line: a rising-edge detector read
//! as "press" and a falling-edge detector read as "release".  Each detector
//! latches a flag when its transition occurs and keeps it raised until the
//! handler acknowledges (clears) it; an unacknowledged flag re-triggers the
//! interrupt immediately.  [`EdgeDetectorBank`] is the model of that bank of
//! latched flags which the verified capture logic works on; the thin
//! hardware layer keeps the real detectors in step with it.

use vstd::prelude::*;

verus! {

/// What the two detectors of one logical channel report for one resolution
/// pass: whether the press (rising-edge) detector fired and whether the
/// release (falling-edge) detector fired since the last acknowledgment.
#[derive(Clone, Copy, PartialEq, Eq, Structural, Debug)]
pub struct ChannelEdges {
    pub pressed: bool,
    pub released: bool,
}

/// The edge-resolution rule for one channel: if the release detector fired,
/// the resolved state is `false` regardless of the press detector; otherwise
/// the resolved state equals whether the press detector fired.  Release
/// takes priority so that a press/release pair short enough to raise both
/// flags before the handler runs resolves to "not active".
pub open spec fn resolved_state(pressed: bool, released: bool) -> bool {
    if released {
        false
    } else {
        pressed
    }
}

/// [`resolved_state`] over one channel's pair of detector reports.
pub open spec fn resolved_edges(e: ChannelEdges) -> bool {
    resolved_state(e.pressed, e.released)
}

/// Resolves one channel's detector reports to its logical state.
pub fn resolve_channel(e: ChannelEdges) -> (b: bool)
    ensures
        b == resolved_edges(e),
{
    match e.released {
        true => false,
        false => e.pressed,
    }
}

/// Release precedence: whenever the release detector reports a fired event,
/// the channel resolves to `false`, whatever the press detector reports.
pub proof fn lemma_release_precedence(e: ChannelEdges)
    ensures
        e.released ==> !resolved_edges(e),
{
}

/// Model of the bank of hardware edge detectors: one press flag and one
/// release flag per bound logical channel, each latched from the moment its
/// transition occurs until it is acknowledged.
pub struct EdgeDetectorBank {
    press_fired: Vec<bool>,
    release_fired: Vec<bool>,
}

impl EdgeDetectorBank {
    /// How many logical channels the bank serves (two detectors each).
    pub open spec fn channels(&self) -> nat {
        self.edges().len()
    }

    /// What the detectors of each channel currently report.
    pub closed spec fn edges(&self) -> Seq<ChannelEdges> {
        Seq::new(
            self.press_fired@.len(),
            |i: int| (ChannelEdges { pressed: self.press_fired@[i], released: self.release_fired@[i] }),
        )
    }

    /// Well-formedness: every channel has both of its detectors.
    pub closed spec fn wf(&self) -> bool {
        self.press_fired@.len() == self.release_fired@.len()
    }

    /// No flag is raised: every detector of every channel reports not-fired.
    pub open spec fn all_clear(&self) -> bool {
        forall|i: int|
            0 <= i < self.edges().len() ==> (#[trigger] self.edges()[i])
                == (ChannelEdges { pressed: false, released: false })
    }

    /// A fresh bank for `n` channels with no flag raised — the state after
    /// initialization clears any stale pending events.
    pub fn new(n: usize) -> (b: Self)
        ensures
            b.wf(),
            b.channels() == n as nat,
            b.all_clear(),
    {
        let mut press_fired: Vec<bool> = Vec::new();
        let mut release_fired: Vec<bool> = Vec::new();
        let mut i: usize = 0;
        while i < n
            invariant
                i <= n,
                press_fired@.len() == i as nat,
                release_fired@.len() == i as nat,
                forall|j: int| 0 <= j < i ==> !press_fired@[j] && !release_fired@[j],
            decreases n - i,
        {
            press_fired.push(false);
            release_fired.push(false);
            i = i + 1;
        }
        EdgeDetectorBank { press_fired, release_fired }
    }

    /// How many logical channels the bank serves.
    pub fn channel_count(&self) -> (n: usize)
        ensures
            n as nat == self.channels(),
    {
        self.press_fired.len()
    }

    /// A rising transition on channel `ch`'s line: its press detector
    /// latches its flag.  Other flags are untouched.
    pub fn record_rising(&mut self, ch: usize)
        requires
            old(self).wf(),
            ch < old(self).channels(),
        ensures
            final(self).wf(),
            final(self).channels() == old(self).channels(),
            final(self).edges() =~= old(self).edges().update(
                ch as int,
                (ChannelEdges { pressed: true, released: old(self).edges()[ch as int].released }),
            ),
    {
        self.press_fired.set(ch, true);
    }

    /// A falling transition on channel `ch`'s line: its release detector
    /// latches its flag.  Other flags are untouched.
    pub fn record_falling(&mut self, ch: usize)
        requires
            old(self).wf(),
            ch < old(self).channels(),
        ensures
            final(self).wf(),
            final(self).channels() == old(self).channels(),
            final(self).edges() =~= old(self).edges().update(
                ch as int,
                (ChannelEdges { pressed: old(self).edges()[ch as int].pressed, released: true }),
            ),
    {
        self.release_fired.set(ch, true);
    }

    /// Reads what channel `ch`'s two detectors report, without clearing
    /// anything.
    pub fn read_channel(&self, ch: usize) -> (e: ChannelEdges)
        requires
            self.wf(),
            ch < self.channels(),
        ensures
            e == self.edges()[ch as int],
    {
        ChannelEdges { pressed: self.press_fired[ch], released: self.release_fired[ch] }
    }

    /// Acknowledges every detector of channel `ch`: both of its flags are
    /// cleared.  Other flags are untouched.
    pub fn clear_channel(&mut self, ch: usize)
        requires
            old(self).wf(),
            ch < old(self).channels(),
        ensures
            final(self).wf(),
            final(self).channels() == old(self).channels(),
            final(self).edges() =~= old(self).edges().update(
                ch as int,
                (ChannelEdges { pressed: false, released: false }),
            ),
    {
        self.press_fired.set(ch, false);
        self.release_fired.set(ch, false);
    }
}

/// Acknowledgment is observable: once every flag has been cleared, an
/// immediate re-read of any channel's detectors — with no new physical
/// transition in between — reports no fired event.
pub proof fn lemma_all_clear_reads_not_fired(b: EdgeDetectorBank)
    requires
        b.wf(),
        b.all_clear(),
    ensures
        forall|ch: int|
            0 <= ch < b.channels() ==> (#[trigger] b.edges()[ch])
                == (ChannelEdges { pressed: false, released: false }),
{
}

} // verus!
