use input_capture::capture::CaptureContext;
use input_capture::capture::TickSource;
use input_capture::config::CaptureConfig;
use input_capture::config::ChannelBinding;
use input_capture::edges::ChannelEdges;
use input_capture::edges::EdgeDetectorBank;
use input_capture::edges::resolve_channel;
use input_capture::snapshot::InputSnapshot;
use input_capture::store::InputStateStore;

fn binding(line: u32, press: u32, release: u32) -> ChannelBinding {
    ChannelBinding { line, press_detector: press, release_detector: release }
}

fn edge_context(bound: usize, width: usize) -> CaptureContext {
    let mut bindings = Vec::new();
    for ch in 0..bound {
        bindings.push(binding(ch as u32, 2 * ch as u32, 2 * ch as u32 + 1));
    }
    let cfg = CaptureConfig::edge_triggered(bindings, width).unwrap();
    CaptureContext::new(cfg)
}

fn polling_context(bound: usize, width: usize) -> CaptureContext {
    let mut bindings = Vec::new();
    for ch in 0..bound {
        bindings.push(binding(ch as u32, 0, 0));
    }
    let cfg = CaptureConfig::polling(bindings, width, 511).unwrap();
    CaptureContext::new(cfg)
}

fn states(snapshot: &InputSnapshot) -> Vec<bool> {
    snapshot.to_states()
}

#[test]
fn store_initial_read_is_all_false() {
    let store = InputStateStore::new(4);
    assert_eq!(states(&store.read()), vec![false, false, false, false]);
}

#[test]
fn store_read_returns_last_write() {
    let mut store = InputStateStore::new(3);
    store.write(InputSnapshot::from_states(vec![true, false, true]));
    assert_eq!(states(&store.read()), vec![true, false, true]);
    store.write(InputSnapshot::from_states(vec![false, true, false]));
    assert_eq!(states(&store.read()), vec![false, true, false]);
}

#[test]
fn resolution_table() {
    let combos = [
        (false, false, false),
        (true, false, true),
        (false, true, false),
        (true, true, false),
    ];
    for (pressed, released, expected) in combos {
        assert_eq!(resolve_channel(ChannelEdges { pressed, released }), expected);
    }
}

#[test]
fn release_precedence_both_edges_resolve_false() {
    // Channel 0: press-edge and release-edge both fired in the same window.
    let mut ctx = edge_context(2, 2);
    let mut bank = EdgeDetectorBank::new(2);
    bank.record_rising(0);
    bank.record_falling(0);
    ctx.on_edge_event(&mut bank);
    assert_eq!(states(&ctx.read_state()), vec![false, false]);
}

#[test]
fn single_channel_press_release_round_trip() {
    let mut ctx = edge_context(2, 2);
    let mut bank = EdgeDetectorBank::new(2);

    // Rising edge on channel 1 alone: channel 1 becomes true.
    bank.record_rising(1);
    ctx.on_edge_event(&mut bank);
    assert_eq!(states(&ctx.read_state()), vec![false, true]);

    // Subsequent falling edge alone on channel 1: channel 1 becomes false.
    bank.record_falling(1);
    ctx.on_edge_event(&mut bank);
    assert_eq!(states(&ctx.read_state()), vec![false, false]);
}

#[test]
fn acknowledgment_leaves_no_fired_flag() {
    let mut ctx = edge_context(3, 3);
    let mut bank = EdgeDetectorBank::new(3);
    bank.record_rising(0);
    bank.record_falling(1);
    bank.record_rising(2);
    bank.record_falling(2);
    ctx.on_edge_event(&mut bank);
    // Re-reading every flag immediately afterward reports not-fired.
    for ch in 0..bank.channel_count() {
        let edges = bank.read_channel(ch);
        assert!(!edges.pressed);
        assert!(!edges.released);
    }
    // A further firing with no new transition publishes the all-false snapshot.
    ctx.on_edge_event(&mut bank);
    assert_eq!(states(&ctx.read_state()), vec![false, false, false]);
}

#[test]
fn tick_acknowledged_every_invocation() {
    let mut ctx = polling_context(2, 2);
    let mut tick = TickSource::new();
    tick.raise();
    ctx.on_tick(&mut tick, &vec![false, false]);
    assert!(!tick.is_pending());
    // Acknowledged even when the lines are not configured yet.
    tick.raise();
    ctx.on_tick(&mut tick, &vec![]);
    assert!(!tick.is_pending());
}

#[test]
fn polling_samples_each_line_independently() {
    let mut ctx = polling_context(3, 3);
    let mut tick = TickSource::new();
    tick.raise();
    ctx.on_tick(&mut tick, &vec![true, false, true]);
    assert_eq!(states(&ctx.read_state()), vec![true, false, true]);
}

#[test]
fn polling_identical_snapshots_without_transition() {
    // A line held low across two tick periods: both fires publish the same
    // all-false snapshot.
    let mut ctx = polling_context(2, 2);
    let mut tick = TickSource::new();
    let levels = vec![false, false];
    tick.raise();
    ctx.on_tick(&mut tick, &levels);
    let first = states(&ctx.read_state());
    tick.raise();
    ctx.on_tick(&mut tick, &levels);
    let second = states(&ctx.read_state());
    assert_eq!(first, vec![false, false]);
    assert_eq!(second, first);

    // Same with a line held high.
    let held = vec![true, false];
    tick.raise();
    ctx.on_tick(&mut tick, &held);
    let third = states(&ctx.read_state());
    tick.raise();
    ctx.on_tick(&mut tick, &held);
    assert_eq!(states(&ctx.read_state()), third);
}

#[test]
fn polling_unconfigured_lines_publish_nothing() {
    let mut ctx = polling_context(2, 2);
    let mut tick = TickSource::new();
    tick.raise();
    ctx.on_tick(&mut tick, &vec![true, true]);
    assert_eq!(states(&ctx.read_state()), vec![true, true]);
    // A level vector that does not cover the bound channels is ignored,
    // but the tick is still acknowledged.
    tick.raise();
    ctx.on_tick(&mut tick, &vec![true]);
    assert_eq!(states(&ctx.read_state()), vec![true, true]);
    assert!(!tick.is_pending());
}

#[test]
fn snapshot_width_scales_and_initializes_all_false() {
    for n in [2usize, 3, 7] {
        let store = InputStateStore::new(n);
        let snapshot = store.read();
        assert_eq!(snapshot.width(), n);
        assert_eq!(states(&snapshot), vec![false; n]);

        let ctx = polling_context(n, n);
        let snapshot = ctx.read_state();
        assert_eq!(snapshot.width(), n);
        assert_eq!(states(&snapshot), vec![false; n]);
    }
}

#[test]
fn unbound_trailing_channels_stay_false() {
    // Seven published channels, only two bound lines: the trailing five
    // stay false through every firing.
    let mut ctx = polling_context(2, 7);
    let mut tick = TickSource::new();
    tick.raise();
    ctx.on_tick(&mut tick, &vec![true, true]);
    assert_eq!(
        states(&ctx.read_state()),
        vec![true, true, false, false, false, false, false]
    );

    let mut ctx = edge_context(2, 3);
    let mut bank = EdgeDetectorBank::new(2);
    bank.record_rising(0);
    bank.record_rising(1);
    ctx.on_edge_event(&mut bank);
    assert_eq!(states(&ctx.read_state()), vec![true, true, false]);
}
