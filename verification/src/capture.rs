//! The capture handler: the interrupt-context logic that, on each
//! event-source firing, recomputes the logical input state and publishes it
//! to the store.
//!
//! The hardware layer owns the actual peripherals and the interrupt vector;
//! on each firing it reads the raw observations (line levels for the polling
//! strategy, the latched detector flags for the edge-triggered ones), hands
//! them to the handler here, and mirrors the acknowledgments the handler
//! performs on the models back to the hardware registers.  Everything the
//! handler decides — resolution, assembly, acknowledgment, publication — is
//! verified here.

use vstd::prelude::*;

use crate::config::CaptureConfig;
use crate::config::EventSourceKind;
use crate::edges::ChannelEdges;
use crate::edges::EdgeDetectorBank;
use crate::edges::resolve_channel;
use crate::edges::resolved_edges;
use crate::edges::resolved_state;
use crate::snapshot::InputSnapshot;
use crate::snapshot::all_inactive;
use crate::store::InputStateStore;

verus! {

/// Model of the periodic counter's tick-event flag: latched when the
/// counter reaches its period, and re-raising the interrupt until it is
/// acknowledged.  Forgetting the acknowledgment stalls the tick line
/// forever on this counter, so the handler clears it unconditionally.
pub struct TickSource {
    pending: bool,
}

impl TickSource {
    /// Whether a tick event is latched and unacknowledged.
    pub closed spec fn pending(&self) -> bool {
        self.pending
    }

    /// The state right after initialization: any stale pending request has
    /// been cleared, so the first fire is a genuine tick.
    pub fn new() -> (t: Self)
        ensures
            !t.pending(),
    {
        TickSource { pending: false }
    }

    /// The counter reaches its period: the tick event latches.
    pub fn raise(&mut self)
        ensures
            final(self).pending(),
    {
        self.pending = true;
    }

    /// Whether a tick event is latched and unacknowledged.
    pub fn is_pending(&self) -> (b: bool)
        ensures
            b == self.pending(),
    {
        self.pending
    }
}

/// The snapshot one polling fire publishes: channel `i` is the level read
/// on line `i` for every bound channel, and `false` for every unbound
/// trailing channel.
pub open spec fn polled_snapshot(levels: Seq<bool>, width: nat) -> Seq<bool> {
    Seq::new(
        width,
        |i: int|
            if i < levels.len() {
                levels[i]
            } else {
                false
            },
    )
}

/// The snapshot one per-channel edge firing publishes: each bound channel
/// resolves its own detector pair by release precedence, and every unbound
/// trailing channel is `false`.
pub open spec fn edge_snapshot(edges: Seq<ChannelEdges>, width: nat) -> Seq<bool> {
    Seq::new(
        width,
        |i: int|
            if i < edges.len() {
                resolved_edges(edges[i])
            } else {
                false
            },
    )
}

/// The aggregated two-channel resolution: release precedence applied to the
/// OR of both channels' edges.
pub open spec fn aggregated_resolved(e0: ChannelEdges, e1: ChannelEdges) -> bool {
    resolved_state(e0.pressed || e1.pressed, e0.released || e1.released)
}

/// The one-boolean snapshot one aggregated firing publishes.
pub open spec fn aggregated_snapshot(edges: Seq<ChannelEdges>) -> Seq<bool>
    recommends
        edges.len() == 2,
{
    seq![aggregated_resolved(edges[0], edges[1])]
}

/// What an edge firing publishes under each edge-triggered strategy.
pub open spec fn edge_event_snapshot(
    kind: EventSourceKind,
    edges: Seq<ChannelEdges>,
    width: nat,
) -> Seq<bool> {
    if kind == EventSourceKind::AggregatedEdgeTriggered {
        aggregated_snapshot(edges)
    } else {
        edge_snapshot(edges, width)
    }
}

/// The capture subsystem: the immutable configuration together with the
/// store it publishes to.  One context is created at startup and handed to
/// both the interrupt registration and the foreground loop.
pub struct CaptureContext {
    config: CaptureConfig,
    store: InputStateStore,
}

impl CaptureContext {
    /// The configuration the context was created with.
    pub closed spec fn cfg(&self) -> CaptureConfig {
        self.config
    }

    /// The snapshot the store holds now.
    pub closed spec fn snap(&self) -> Seq<bool> {
        self.store.snap()
    }

    /// Every value the store has held, oldest first.
    pub closed spec fn history(&self) -> Seq<Seq<bool>> {
        self.store.history()
    }

    /// Well-formedness: the configuration is valid and the store tracks
    /// exactly the configured channels.
    pub closed spec fn wf(&self) -> bool {
        &&& self.config.wf()
        &&& self.store.wf()
        &&& self.store.width_spec() == self.config.width_spec()
    }

    /// A fresh context: the store starts at the all-inactive snapshot of
    /// the configured width.
    pub fn new(config: CaptureConfig) -> (c: Self)
        requires
            config.wf(),
        ensures
            c.wf(),
            c.cfg() == config,
            c.snap() =~= all_inactive(config.width_spec()),
            c.history() =~= seq![all_inactive(config.width_spec())],
    {
        let width = config.width();
        CaptureContext { config, store: InputStateStore::new(width) }
    }

    /// The configuration, for the hardware layer to set the peripherals up
    /// from.
    pub fn config(&self) -> (c: &CaptureConfig)
        ensures
            *c == self.cfg(),
    {
        &self.config
    }

    /// The foreground read: a copy of the most recently published snapshot,
    /// the same API whichever strategy is configured.  The result always
    /// stands whole in the history — some firing's snapshot, or the initial
    /// all-inactive one — never a mix.
    pub fn read_state(&self) -> (r: InputSnapshot)
        requires
            self.wf(),
        ensures
            r@ == self.snap(),
            r@.len() == self.cfg().width_spec(),
            exists|i: int| 0 <= i < self.history().len() && r@ =~= self.history()[i],
    {
        let r = self.store.read();
        proof {
            let i = choose|i: int|
                0 <= i < self.store.history().len() && r@ =~= self.store.history()[i];
            assert(0 <= i < self.history().len() && r@ =~= self.history()[i]);
        }
        r
    }

    /// The polling handler, run once per counter tick: samples every bound
    /// line directly and independently — no debouncing, no edge history —
    /// publishes the result, and acknowledges the tick.
    ///
    /// Under this strategy "release" is not a first-class observable: a
    /// release is simply the absence of "pressed" at the next poll, since a
    /// level sample has no edge memory.  Only the edge-triggered strategies
    /// observe releases as events.
    ///
    /// `levels` is the level read on each bound line.  If the lines are not
    /// configured yet (`levels` does not cover the bound channels), nothing
    /// is published; the tick is acknowledged regardless — unconditionally,
    /// whatever was or was not read — or the counter would never fire
    /// again.
    pub fn on_tick(&mut self, tick: &mut TickSource, levels: &Vec<bool>)
        requires
            old(self).wf(),
            old(self).cfg().kind() == EventSourceKind::Polling,
        ensures
            final(self).wf(),
            final(self).cfg() == old(self).cfg(),
            !final(tick).pending(),
            levels@.len() == old(self).cfg().bound() ==> final(self).snap() =~= polled_snapshot(
                levels@,
                old(self).cfg().width_spec(),
            ),
            levels@.len() == old(self).cfg().bound() ==> final(self).history() =~= old(
                self,
            ).history().push(polled_snapshot(levels@, old(self).cfg().width_spec())),
            levels@.len() != old(self).cfg().bound() ==> *final(self) == *old(self),
    {
        if levels.len() == self.config.bound_channels() {
            let width = self.config.width();
            let mut states: Vec<bool> = Vec::new();
            let mut i: usize = 0;
            while i < width
                invariant
                    i <= width,
                    states@.len() == i as nat,
                    forall|j: int|
                        0 <= j < i ==> states@[j] == (if j < levels@.len() {
                            levels@[j]
                        } else {
                            false
                        }),
                decreases width - i,
            {
                if i < levels.len() {
                    states.push(levels[i]);
                } else {
                    states.push(false);
                }
                i = i + 1;
            }
            proof {
                assert(states@ =~= polled_snapshot(levels@, old(self).cfg().width_spec()));
            }
            self.store.write(InputSnapshot::from_states(states));
        }
        tick.pending = false;
    }

    /// The edge-triggered handler, run once per detector interrupt: reads
    /// what every detector reports, resolves each channel (or, in the
    /// aggregated strategy, the OR of both channels) by release precedence,
    /// acknowledges every flag read — an unacknowledged flag re-enters the
    /// interrupt immediately — and publishes the assembled snapshot.
    pub fn on_edge_event(&mut self, bank: &mut EdgeDetectorBank)
        requires
            old(self).wf(),
            old(self).cfg().kind() == EventSourceKind::EdgeTriggered || old(self).cfg().kind()
                == EventSourceKind::AggregatedEdgeTriggered,
            old(bank).wf(),
            old(bank).channels() == old(self).cfg().bound(),
        ensures
            final(self).wf(),
            final(self).cfg() == old(self).cfg(),
            final(bank).wf(),
            final(bank).channels() == old(bank).channels(),
            final(bank).all_clear(),
            final(self).snap() =~= edge_event_snapshot(
                old(self).cfg().kind(),
                old(bank).edges(),
                old(self).cfg().width_spec(),
            ),
            final(self).history() =~= old(self).history().push(
                edge_event_snapshot(
                    old(self).cfg().kind(),
                    old(bank).edges(),
                    old(self).cfg().width_spec(),
                ),
            ),
    {
        let n = bank.channel_count();
        // 1. Read whether each detector fired since the last clear.
        let mut observed: Vec<ChannelEdges> = Vec::new();
        let mut i: usize = 0;
        while i < n
            invariant
                i <= n,
                *bank == *old(bank),
                n as nat == bank.channels(),
                bank.wf(),
                observed@.len() == i as nat,
                forall|j: int| 0 <= j < i ==> observed@[j] == bank.edges()[j],
            decreases n - i,
        {
            observed.push(bank.read_channel(i));
            i = i + 1;
        }
        proof {
            assert(observed@ =~= old(bank).edges());
        }
        // 2. Resolve to the logical states.
        let states: Vec<bool> = match self.config.source_kind() {
            EventSourceKind::AggregatedEdgeTriggered => {
                let first = observed[0];
                let second = observed[1];
                let any_active = resolve_channel(
                    ChannelEdges {
                        pressed: first.pressed || second.pressed,
                        released: first.released || second.released,
                    },
                );
                let mut states: Vec<bool> = Vec::new();
                states.push(any_active);
                proof {
                    assert(states@ =~= aggregated_snapshot(old(bank).edges()));
                }
                states
            },
            _ => {
                let width = self.config.width();
                let mut states: Vec<bool> = Vec::new();
                let mut k: usize = 0;
                while k < width
                    invariant
                        k <= width,
                        states@.len() == k as nat,
                        forall|j: int|
                            0 <= j < k ==> states@[j] == (if j < observed@.len() {
                                resolved_edges(observed@[j])
                            } else {
                                false
                            }),
                    decreases width - k,
                {
                    if k < observed.len() {
                        states.push(resolve_channel(observed[k]));
                    } else {
                        states.push(false);
                    }
                    k = k + 1;
                }
                proof {
                    assert(states@ =~= edge_snapshot(
                        old(bank).edges(),
                        old(self).cfg().width_spec(),
                    ));
                }
                states
            },
        };
        // 3. Acknowledge every flag that was read, for every channel.
        let mut c: usize = 0;
        while c < n
            invariant
                c <= n,
                bank.wf(),
                bank.channels() == old(bank).channels(),
                n as nat == bank.channels(),
                forall|j: int|
                    0 <= j < c ==> bank.edges()[j] == (ChannelEdges {
                        pressed: false,
                        released: false,
                    }),
            decreases n - c,
        {
            bank.clear_channel(c);
            c = c + 1;
        }
        // 4. Publish the assembled snapshot in a single store operation.
        self.store.write(InputSnapshot::from_states(states));
    }
}

/// Idempotent no-op polling: the snapshot a polling fire publishes depends
/// on the line levels it reads alone, never on the store's prior contents.
/// So if no physical transition occurs between two consecutive fires — both
/// read the same levels — the second fire publishes a snapshot identical to
/// the first.  `mid` is the state the first fire left (from `start`, having
/// read `levels`), `end` the state the second fire left (from `mid`, having
/// read the same `levels`); the two published snapshots are equal.
pub proof fn lemma_polling_idempotent(
    start: CaptureContext,
    mid: CaptureContext,
    end: CaptureContext,
    levels: Seq<bool>,
)
    requires
        mid.cfg() == start.cfg(),
        end.cfg() == mid.cfg(),
        levels.len() == start.cfg().bound(),
        mid.snap() == polled_snapshot(levels, start.cfg().width_spec()),
        end.snap() == polled_snapshot(levels, mid.cfg().width_spec()),
    ensures
        end.snap() == mid.snap(),
{
}

/// Unbound trailing channels stay inactive: whichever strategy fires, the
/// published snapshot is `false` at every channel index the configuration
/// binds no physical line to — so a width exceeding the configured lines
/// leaves the trailing channels permanently `false`, as they also start.
pub proof fn lemma_unbound_channels_inactive(
    levels: Seq<bool>,
    edges: Seq<ChannelEdges>,
    width: nat,
    ch: int,
)
    requires
        ch < width,
        levels.len() <= ch,
        edges.len() <= ch,
    ensures
        polled_snapshot(levels, width)[ch] == false,
        edge_snapshot(edges, width)[ch] == false,
        all_inactive(width)[ch] == false,
{
}

/// Aggregated-mode equivalence: the single aggregated boolean — release
/// precedence applied to the OR of both channels' edges — equals the OR of
/// the two per-channel resolved states, masked by "no release detector
/// fired on either channel".
pub proof fn lemma_aggregated_equivalence(e0: ChannelEdges, e1: ChannelEdges)
    ensures
        aggregated_resolved(e0, e1) == ((resolved_edges(e0) || resolved_edges(e1)) && !(
        e0.released || e1.released)),
{
}

} // verus!
