use input_capture::capture::CaptureContext;
use input_capture::config::CaptureConfig;
use input_capture::config::ChannelBinding;
use input_capture::config::ConfigError;
use input_capture::config::EventSourceKind;
use input_capture::config::MAX_TICK_DIVISOR;
use input_capture::edges::ChannelEdges;
use input_capture::edges::EdgeDetectorBank;
use input_capture::edges::resolve_channel;
use input_capture::foreground::foreground_step;
use input_capture::foreground::ToneCommand;
use input_capture::foreground::TONE_BOTH_HZ;
use input_capture::foreground::TONE_FIRST_HZ;
use input_capture::foreground::TONE_SECOND_HZ;
use input_capture::snapshot::InputSnapshot;

fn binding(line: u32, press: u32, release: u32) -> ChannelBinding {
    ChannelBinding { line, press_detector: press, release_detector: release }
}

fn two_bindings() -> Vec<ChannelBinding> {
    vec![binding(2, 0, 1), binding(3, 2, 3)]
}

#[test]
fn out_of_range_divisor_is_fatal() {
    let r = CaptureConfig::polling(two_bindings(), 2, MAX_TICK_DIVISOR + 1);
    assert_eq!(r.unwrap_err(), ConfigError::DivisorOutOfRange);
}

#[test]
fn largest_divisor_is_accepted() {
    let cfg = CaptureConfig::polling(two_bindings(), 2, MAX_TICK_DIVISOR).unwrap();
    assert_eq!(cfg.source_kind(), EventSourceKind::Polling);
    assert_eq!(cfg.tick_divisor(), MAX_TICK_DIVISOR);
    assert_eq!(cfg.width(), 2);
    assert_eq!(cfg.bound_channels(), 2);
    assert_eq!(cfg.binding(1), binding(3, 2, 3));
}

#[test]
fn more_bindings_than_channels_is_fatal() {
    let r = CaptureConfig::polling(two_bindings(), 1, 511);
    assert_eq!(r.unwrap_err(), ConfigError::TooManyChannels);
    let r = CaptureConfig::edge_triggered(two_bindings(), 1);
    assert_eq!(r.unwrap_err(), ConfigError::TooManyChannels);
}

#[test]
fn aggregated_configuration_publishes_one_channel() {
    let cfg = CaptureConfig::aggregated_edge_triggered(binding(2, 0, 1), binding(3, 2, 3));
    assert_eq!(cfg.source_kind(), EventSourceKind::AggregatedEdgeTriggered);
    assert_eq!(cfg.width(), 1);
    assert_eq!(cfg.bound_channels(), 2);
    let ctx = CaptureContext::new(cfg);
    let snapshot = ctx.read_state();
    assert_eq!(snapshot.width(), 1);
    assert!(!snapshot.channel(0));
}

fn aggregated_context() -> CaptureContext {
    CaptureContext::new(CaptureConfig::aggregated_edge_triggered(
        binding(2, 0, 1),
        binding(3, 2, 3),
    ))
}

#[test]
fn aggregated_press_on_either_channel_activates() {
    let mut ctx = aggregated_context();
    let mut bank = EdgeDetectorBank::new(2);
    bank.record_rising(1);
    ctx.on_edge_event(&mut bank);
    assert!(ctx.read_state().channel(0));
}

#[test]
fn aggregated_release_takes_precedence() {
    let mut ctx = aggregated_context();
    let mut bank = EdgeDetectorBank::new(2);
    // One channel pressed, the other released in the same window: inactive.
    bank.record_rising(0);
    bank.record_falling(1);
    ctx.on_edge_event(&mut bank);
    assert!(!ctx.read_state().channel(0));
}

#[test]
fn aggregated_output_matches_per_channel_formula() {
    // Every combination of the four flags: the single aggregated boolean
    // equals (resolved0 OR resolved1) AND NOT (released0 OR released1).
    for mask in 0u32..16 {
        let e0 = ChannelEdges { pressed: mask & 1 != 0, released: mask & 2 != 0 };
        let e1 = ChannelEdges { pressed: mask & 4 != 0, released: mask & 8 != 0 };

        let mut ctx = aggregated_context();
        let mut bank = EdgeDetectorBank::new(2);
        if e0.pressed {
            bank.record_rising(0);
        }
        if e0.released {
            bank.record_falling(0);
        }
        if e1.pressed {
            bank.record_rising(1);
        }
        if e1.released {
            bank.record_falling(1);
        }
        ctx.on_edge_event(&mut bank);

        let expected = (resolve_channel(e0) || resolve_channel(e1))
            && !(e0.released || e1.released);
        assert_eq!(ctx.read_state().channel(0), expected, "flag combination {mask}");
    }
}

#[test]
fn tone_selection_table() {
    let cases = [
        (false, false, ToneCommand::Mute),
        (true, false, ToneCommand::Play(TONE_FIRST_HZ)),
        (false, true, ToneCommand::Play(TONE_SECOND_HZ)),
        (true, true, ToneCommand::Play(TONE_BOTH_HZ)),
    ];
    for (first, second, expected) in cases {
        let snapshot = InputSnapshot::from_states(vec![first, second, false]);
        let (cmd, _) = foreground_step(&snapshot, 0, 16);
        assert_eq!(cmd, expected);
    }
}

#[test]
fn animation_advances_only_while_idle() {
    let idle = InputSnapshot::from_states(vec![false, false]);
    let active = InputSnapshot::from_states(vec![true, false]);
    let (_, frame) = foreground_step(&idle, 3, 16);
    assert_eq!(frame, 4);
    let (_, frame) = foreground_step(&idle, 15, 16);
    assert_eq!(frame, 0);
    let (_, frame) = foreground_step(&active, 3, 16);
    assert_eq!(frame, 3);
}
