//! Event-source configuration: which capture strategy runs, how many logical
//! channels the published snapshot covers, and how each channel is bound to
//! its physical line and edge detectors.  Set once at initialization and
//! immutable thereafter.

use vstd::prelude::*;

verus! {

/// The closed set of capture strategies, selected at configuration time.
#[derive(Clone, Copy, PartialEq, Eq, Structural, Debug)]
pub enum EventSourceKind {
    /// A periodic counter tick fires the handler, which samples every bound
    /// line directly.
    Polling,
    /// Pin transitions fire the handler, which resolves each channel's
    /// press/release detector pair to that channel's state.
    EdgeTriggered,
    /// Pin transitions fire the handler, which resolves the detector pairs
    /// of two physical channels to one aggregated "any input active"
    /// boolean.
    AggregatedEdgeTriggered,
}

/// Binds one logical channel to its physical input line and, for the
/// edge-triggered strategies, to its two hardware edge detectors: the
/// rising-edge detector is read as "press", the falling-edge detector as
/// "release".
#[derive(Clone, Copy, PartialEq, Eq, Structural, Debug)]
pub struct ChannelBinding {
    /// The physical input line, configured as a pull-down input.
    pub line: u32,
    /// The hardware detector watching the line for a rising edge.
    pub press_detector: u32,
    /// The hardware detector watching the line for a falling edge.
    pub release_detector: u32,
}

/// A configuration the hardware cannot satisfy.  Fatal at startup: the
/// system must not proceed to the main loop.
#[derive(Clone, Copy, PartialEq, Eq, Structural, Debug)]
pub enum ConfigError {
    /// The requested tick divisor does not fit the counter's divisor
    /// register.
    DivisorOutOfRange,
    /// More channels are bound than the published snapshot covers.
    TooManyChannels,
}

/// The largest divisor the real-time counter's 12-bit prescaler register
/// accepts.
pub const MAX_TICK_DIVISOR: u32 = 4095;

/// The full, immutable configuration of the capture subsystem.
#[derive(Debug)]
pub struct CaptureConfig {
    kind: EventSourceKind,
    width: usize,
    bindings: Vec<ChannelBinding>,
    divisor: u32,
}

impl CaptureConfig {
    /// Which capture strategy is configured.
    pub closed spec fn kind(&self) -> EventSourceKind {
        self.kind
    }

    /// How many logical channels the published snapshot covers.
    pub closed spec fn width_spec(&self) -> nat {
        self.width as nat
    }

    /// The per-channel bindings; channels past `bound()` are unbound.
    pub closed spec fn bindings_spec(&self) -> Seq<ChannelBinding> {
        self.bindings@
    }

    /// How many logical channels are bound to a physical line.
    pub open spec fn bound(&self) -> nat {
        self.bindings_spec().len()
    }

    /// The counter tick divisor (meaningful for the polling strategy only).
    pub closed spec fn divisor_spec(&self) -> nat {
        self.divisor as nat
    }

    /// Well-formedness: the divisor fits the counter register, and the
    /// bindings fit the snapshot — per channel for the per-channel
    /// strategies, exactly two physical channels feeding one published
    /// boolean for the aggregated strategy.
    pub open spec fn wf(&self) -> bool {
        &&& self.divisor_spec() <= MAX_TICK_DIVISOR
        &&& match self.kind() {
            EventSourceKind::Polling => self.bound() <= self.width_spec(),
            EventSourceKind::EdgeTriggered => self.bound() <= self.width_spec(),
            EventSourceKind::AggregatedEdgeTriggered => self.bound() == 2 && self.width_spec()
                == 1,
        }
    }

    /// A polling configuration: the counter fires at a period set by
    /// `divisor`, and each tick samples the `bindings.len()` bound lines
    /// into a `width`-channel snapshot.  Rejected if the divisor does not
    /// fit the counter register, or if more lines are bound than the
    /// snapshot covers; on rejection the system must halt before the main
    /// loop.
    pub fn polling(bindings: Vec<ChannelBinding>, width: usize, divisor: u32) -> (r: Result<
        CaptureConfig,
        ConfigError,
    >)
        ensures
            r is Ok <==> (divisor <= MAX_TICK_DIVISOR && bindings@.len() <= width),
            r matches Ok(c) ==> c.wf() && c.kind() == EventSourceKind::Polling && c.width_spec()
                == width as nat && c.bindings_spec() == bindings@ && c.divisor_spec()
                == divisor as nat,
            divisor > MAX_TICK_DIVISOR ==> (r matches Err(e) && e
                == ConfigError::DivisorOutOfRange),
            divisor <= MAX_TICK_DIVISOR && bindings@.len() > width ==> (r matches Err(e) && e
                == ConfigError::TooManyChannels),
    {
        if divisor > MAX_TICK_DIVISOR {
            Err(ConfigError::DivisorOutOfRange)
        } else if bindings.len() > width {
            Err(ConfigError::TooManyChannels)
        } else {
            Ok(CaptureConfig { kind: EventSourceKind::Polling, width, bindings, divisor })
        }
    }

    /// A per-channel edge-triggered configuration: each bound channel's
    /// detector pair resolves to that channel's state in a `width`-channel
    /// snapshot.  Rejected if more channels are bound than the snapshot
    /// covers.
    pub fn edge_triggered(bindings: Vec<ChannelBinding>, width: usize) -> (r: Result<
        CaptureConfig,
        ConfigError,
    >)
        ensures
            r is Ok <==> bindings@.len() <= width,
            r matches Ok(c) ==> c.wf() && c.kind() == EventSourceKind::EdgeTriggered
                && c.width_spec() == width as nat && c.bindings_spec() == bindings@,
            bindings@.len() > width ==> (r matches Err(e) && e == ConfigError::TooManyChannels),
    {
        if bindings.len() > width {
            Err(ConfigError::TooManyChannels)
        } else {
            Ok(CaptureConfig { kind: EventSourceKind::EdgeTriggered, width, bindings, divisor: 0 })
        }
    }

    /// The aggregated two-channel edge-triggered configuration: the detector
    /// pairs of the two given physical channels resolve to one published
    /// "any input active" boolean.  Cannot fail.
    pub fn aggregated_edge_triggered(first: ChannelBinding, second: ChannelBinding) -> (c:
        CaptureConfig)
        ensures
            c.wf(),
            c.kind() == EventSourceKind::AggregatedEdgeTriggered,
            c.width_spec() == 1,
            c.bindings_spec() =~= seq![first, second],
    {
        let mut bindings: Vec<ChannelBinding> = Vec::new();
        bindings.push(first);
        bindings.push(second);
        CaptureConfig {
            kind: EventSourceKind::AggregatedEdgeTriggered,
            width: 1,
            bindings,
            divisor: 0,
        }
    }

    /// Which capture strategy is configured.
    pub fn source_kind(&self) -> (k: EventSourceKind)
        ensures
            k == self.kind(),
    {
        self.kind
    }

    /// How many logical channels the published snapshot covers.
    pub fn width(&self) -> (n: usize)
        ensures
            n == self.width_spec(),
    {
        self.width
    }

    /// How many logical channels are bound to a physical line.
    pub fn bound_channels(&self) -> (n: usize)
        ensures
            n == self.bound(),
    {
        self.bindings.len()
    }

    /// The binding of bound channel `i`.
    pub fn binding(&self, i: usize) -> (b: ChannelBinding)
        requires
            i < self.bound(),
        ensures
            b == self.bindings_spec()[i as int],
    {
        self.bindings[i]
    }

    /// The counter tick divisor the polling strategy was configured with.
    pub fn tick_divisor(&self) -> (d: u32)
        ensures
            d as nat == self.divisor_spec(),
    {
        self.divisor
    }
}

} // verus!
