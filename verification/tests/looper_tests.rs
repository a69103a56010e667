use microdsp_demo::filtering::{AdaptiveFilter, PassthroughFilter};
use microdsp_demo::looper::{NlmsDemoApp, RecordingState};
use microdsp_demo::AppMessage;

/// A test filter that records the reference sample instead of the input, to
/// observe the previous-output cache.
struct ReferenceFilter;

impl AdaptiveFilter for ReferenceFilter {
    fn update(&mut self, reference: i64, _input: i64) -> i64 {
        reference
    }

    fn reset(&mut self) {}
}

fn drain<F: AdaptiveFilter>(app: &mut NlmsDemoApp<F>) -> Vec<AppMessage> {
    let mut out = Vec::new();
    while let Some(m) = app.next_outgoing_message() {
        out.push(m);
    }
    out
}

fn looper_with_capacity(capacity: usize) -> NlmsDemoApp<PassthroughFilter> {
    NlmsDemoApp::with_record_capacity(44100, capacity, PassthroughFilter::new())
}

#[test]
fn initial_state_is_idle() {
    let mut app = looper_with_capacity(8);
    assert_eq!(app.recording_state(), RecordingState::Idle);
    assert!(!app.oscillator_enabled());
    assert!(!app.filter_is_active());
    assert_eq!(app.next_outgoing_message(), None);
}

#[test]
fn state_stays_valid_under_any_button_sequence() {
    let mut app = looper_with_capacity(8);
    let events = [
        AppMessage::Button2Down,
        AppMessage::Button3Down,
        AppMessage::Button0Down,
        AppMessage::Button2Down,
        AppMessage::Button3Down,
        AppMessage::Button1Down,
        AppMessage::Button3Down,
        AppMessage::Button0Up,
        AppMessage::Button2Down,
        AppMessage::Led0On,
        AppMessage::Button2Down,
        AppMessage::Button3Down,
    ];
    for e in events.iter() {
        app.handle_message(*e);
        let s = app.recording_state();
        assert!(
            s == RecordingState::Idle
                || s == RecordingState::Recording
                || s == RecordingState::Playing
        );
    }
}

#[test]
fn toggling_oscillator_twice_restores_it() {
    let mut app = looper_with_capacity(8);
    assert!(!app.oscillator_enabled());
    app.handle_message(AppMessage::Button0Down);
    assert!(app.oscillator_enabled());
    app.handle_message(AppMessage::Button0Down);
    assert!(!app.oscillator_enabled());
    assert_eq!(
        drain(&mut app),
        vec![AppMessage::Led0Off, AppMessage::Led0On]
    );
}

#[test]
fn toggling_filter_twice_restores_it() {
    let mut app = looper_with_capacity(8);
    assert!(!app.filter_is_active());
    app.handle_message(AppMessage::Button1Down);
    assert!(app.filter_is_active());
    app.handle_message(AppMessage::Button1Down);
    assert!(!app.filter_is_active());
    assert_eq!(
        drain(&mut app),
        vec![AppMessage::Led1Off, AppMessage::Led1On]
    );
}

#[test]
fn button_up_events_are_ignored() {
    let mut app = looper_with_capacity(8);
    app.handle_message(AppMessage::Button0Up);
    app.handle_message(AppMessage::Button1Up);
    app.handle_message(AppMessage::Button2Up);
    app.handle_message(AppMessage::Button3Up);
    assert_eq!(app.recording_state(), RecordingState::Idle);
    assert!(!app.oscillator_enabled());
    assert!(!app.filter_is_active());
    assert_eq!(app.next_outgoing_message(), None);
}

#[test]
fn playback_button_ignored_while_recording() {
    let mut app = looper_with_capacity(8);
    app.handle_message(AppMessage::Button2Down);
    assert_eq!(app.recording_state(), RecordingState::Recording);
    assert_eq!(drain(&mut app), vec![AppMessage::Led2On]);
    // the edge case: playback while recording does nothing at all
    app.handle_message(AppMessage::Button3Down);
    assert_eq!(app.recording_state(), RecordingState::Recording);
    assert_eq!(app.next_outgoing_message(), None);
}

#[test]
fn record_button_stops_recording() {
    let mut app = looper_with_capacity(8);
    app.handle_message(AppMessage::Button2Down);
    app.handle_message(AppMessage::Button2Down);
    assert_eq!(app.recording_state(), RecordingState::Idle);
    assert_eq!(
        drain(&mut app),
        vec![AppMessage::Led2Off, AppMessage::Led2On]
    );
}

#[test]
fn playback_toggles_from_idle_only() {
    let mut app = looper_with_capacity(8);
    app.handle_message(AppMessage::Button3Down);
    assert_eq!(app.recording_state(), RecordingState::Playing);
    app.handle_message(AppMessage::Button3Down);
    assert_eq!(app.recording_state(), RecordingState::Idle);
    assert_eq!(
        drain(&mut app),
        vec![AppMessage::Led3Off, AppMessage::Led3On]
    );
}

#[test]
fn recording_full_buffer_auto_stops_with_one_led_off() {
    let mut app = looper_with_capacity(4);
    app.handle_message(AppMessage::Button2Down);
    assert_eq!(drain(&mut app), vec![AppMessage::Led2On]);
    let rx = vec![1i64, 2, 3, 4];
    let mut tx = vec![0i64; 4];
    app.process(&rx, &mut tx);
    assert_eq!(app.recording_state(), RecordingState::Idle);
    // exactly one LED-off from the automatic edge
    assert_eq!(drain(&mut app), vec![AppMessage::Led2Off]);
    assert_eq!(app.record_buffer_pos(), 4);
    // no further writes once idle: playback still yields the recording
    let mut tx2 = vec![0i64; 4];
    app.process(&vec![9i64, 9, 9, 9], &mut tx2);
    assert_eq!(tx2, vec![0, 0, 0, 0]);
    app.handle_message(AppMessage::Button3Down);
    let mut tx3 = vec![0i64; 4];
    app.process(&vec![0i64; 4], &mut tx3);
    assert_eq!(tx3, vec![1, 2, 3, 4]);
}

#[test]
fn recording_stops_mid_frame_when_buffer_fills() {
    let mut app = looper_with_capacity(3);
    app.handle_message(AppMessage::Button2Down);
    drain(&mut app);
    let rx = vec![5i64, 6, 7, 8, 9];
    let mut tx = vec![0i64; 5];
    app.process(&rx, &mut tx);
    assert_eq!(app.recording_state(), RecordingState::Idle);
    assert_eq!(drain(&mut app), vec![AppMessage::Led2Off]);
    // only the first three samples were stored
    app.handle_message(AppMessage::Button3Down);
    let mut tx2 = vec![0i64; 3];
    app.process(&vec![0i64; 3], &mut tx2);
    assert_eq!(tx2, vec![5, 6, 7]);
}

#[test]
fn round_trip_capacity_four() {
    let mut app = looper_with_capacity(4);
    app.handle_message(AppMessage::Button2Down);
    assert_eq!(drain(&mut app), vec![AppMessage::Led2On]);
    let rx = vec![1i64, 2, 3, 4];
    let mut tx = vec![0i64; 4];
    app.process(&rx, &mut tx);
    assert_eq!(app.recording_state(), RecordingState::Idle);
    assert_eq!(drain(&mut app), vec![AppMessage::Led2Off]);
    app.handle_message(AppMessage::Button3Down);
    assert_eq!(app.recording_state(), RecordingState::Playing);
    let mut out = vec![0i64; 4];
    app.process(&vec![0i64; 4], &mut out);
    assert_eq!(out, vec![1, 2, 3, 4]);
}

#[test]
fn round_trip_across_multiple_frames() {
    // a buffer larger than the maximum frame: filled over several frames,
    // auto-stopping mid-way through the last one
    let capacity = 600;
    let mut app = looper_with_capacity(capacity);
    app.handle_message(AppMessage::Button2Down);
    drain(&mut app);
    let first: Vec<i64> = (0..400).map(|i| i as i64).collect();
    let second: Vec<i64> = (0..400).map(|i| 1000 + i as i64).collect();
    app.process(&first, &mut vec![0i64; 400]);
    assert_eq!(app.recording_state(), RecordingState::Recording);
    assert_eq!(drain(&mut app), vec![]);
    app.process(&second, &mut vec![0i64; 400]);
    assert_eq!(app.recording_state(), RecordingState::Idle);
    assert_eq!(drain(&mut app), vec![AppMessage::Led2Off]);
    // playback over two frames returns all 600 samples in order
    app.handle_message(AppMessage::Button3Down);
    let mut out1 = vec![0i64; 400];
    let mut out2 = vec![0i64; 200];
    app.process(&vec![0i64; 400], &mut out1);
    app.process(&vec![0i64; 200], &mut out2);
    assert_eq!(out1[..400], first[..]);
    assert_eq!(out2[..200], second[..200]);
}

#[test]
fn playback_wraps_around_the_buffer() {
    let mut app = looper_with_capacity(4);
    app.handle_message(AppMessage::Button2Down);
    app.process(&vec![1i64, 2, 3, 4], &mut vec![0i64; 4]);
    drain(&mut app);
    app.handle_message(AppMessage::Button3Down);
    let mut out = vec![0i64; 6];
    app.process(&vec![0i64; 6], &mut out);
    assert_eq!(out, vec![1, 2, 3, 4, 1, 2]);
}

#[test]
fn playback_adds_into_the_output() {
    let mut app = looper_with_capacity(4);
    app.handle_message(AppMessage::Button2Down);
    app.process(&vec![10i64, 20, 30, 40], &mut vec![0i64; 4]);
    drain(&mut app);
    app.handle_message(AppMessage::Button3Down);
    let mut out = vec![100i64, 100, 100, 100];
    app.process(&vec![0i64; 4], &mut out);
    assert_eq!(out, vec![110, 120, 130, 140]);
}

#[test]
fn restarting_recording_rewinds_the_cursor() {
    let mut app = looper_with_capacity(4);
    app.handle_message(AppMessage::Button2Down);
    app.process(&vec![1i64, 2], &mut vec![0i64; 2]);
    assert_eq!(app.record_buffer_pos(), 2);
    // stop, then record again from the start
    app.handle_message(AppMessage::Button2Down);
    app.handle_message(AppMessage::Button2Down);
    assert_eq!(app.record_buffer_pos(), 0);
    app.process(&vec![7i64, 8, 9, 10], &mut vec![0i64; 4]);
    drain(&mut app);
    app.handle_message(AppMessage::Button3Down);
    let mut out = vec![0i64; 4];
    app.process(&vec![0i64; 4], &mut out);
    assert_eq!(out, vec![7, 8, 9, 10]);
}

#[test]
fn filtered_recording_uses_previous_output_cache() {
    // ReferenceFilter stores the reference sample, i.e. the previous frame's
    // output at the same position.
    let mut app: NlmsDemoApp<ReferenceFilter> =
        NlmsDemoApp::with_record_capacity(44100, 4, ReferenceFilter);
    // produce a frame whose output is [10, 20, 30, 40]: idle playback of
    // nothing, output stays as handed in
    let mut tx = vec![10i64, 20, 30, 40];
    app.process(&vec![0i64; 4], &mut tx);
    // now record with the filter active: the buffer gets the cached outputs
    app.handle_message(AppMessage::Button1Down);
    app.handle_message(AppMessage::Button2Down);
    app.process(&vec![1i64, 2, 3, 4], &mut vec![0i64; 4]);
    drain(&mut app);
    app.handle_message(AppMessage::Button3Down);
    let mut out = vec![0i64; 4];
    app.process(&vec![0i64; 4], &mut out);
    assert_eq!(out, vec![10, 20, 30, 40]);
}

#[test]
fn unfiltered_recording_stores_raw_input_with_passthrough_semantics() {
    // with the filter flag off the raw input is stored even though a filter
    // instance is present
    let mut app: NlmsDemoApp<ReferenceFilter> =
        NlmsDemoApp::with_record_capacity(44100, 4, ReferenceFilter);
    let mut tx = vec![10i64, 20, 30, 40];
    app.process(&vec![0i64; 4], &mut tx);
    app.handle_message(AppMessage::Button2Down);
    app.process(&vec![1i64, 2, 3, 4], &mut vec![0i64; 4]);
    drain(&mut app);
    app.handle_message(AppMessage::Button3Down);
    let mut out = vec![0i64; 4];
    app.process(&vec![0i64; 4], &mut out);
    assert_eq!(out, vec![1, 2, 3, 4]);
}

#[test]
fn oscillator_mix_is_deterministic_and_additive() {
    let mut a = looper_with_capacity(8);
    let mut b = looper_with_capacity(8);
    a.handle_message(AppMessage::Button0Down);
    b.handle_message(AppMessage::Button0Down);
    let mut tx_a = vec![0i64; 64];
    let mut tx_b = vec![1000i64; 64];
    a.process(&vec![0i64; 64], &mut tx_a);
    b.process(&vec![0i64; 64], &mut tx_b);
    // identical parameters give identical tones, mixed additively
    let mut saw_nonzero = false;
    for i in 0..64 {
        assert_eq!(tx_b[i], tx_a[i] + 1000);
        if tx_a[i] != 0 {
            saw_nonzero = true;
        }
    }
    assert!(saw_nonzero);
}

#[test]
fn disabled_oscillator_leaves_output_untouched() {
    let mut app = looper_with_capacity(8);
    let mut tx = vec![5i64, -5, 7, -7];
    app.process(&vec![0i64; 4], &mut tx);
    assert_eq!(tx, vec![5, -5, 7, -7]);
}

#[test]
fn outbox_saturates_and_keeps_existing_events() {
    let mut app = looper_with_capacity(8);
    // each toggle emits one LED event; the outbox caps at its capacity of 16
    for _ in 0..20 {
        app.handle_message(AppMessage::Button0Down);
    }
    let drained = drain(&mut app);
    assert_eq!(drained.len(), 16);
    // the first 16 events survive unchanged: Led0On, Led0Off, Led0On, ...
    for (i, m) in drained.iter().rev().enumerate() {
        let expected = if i % 2 == 0 {
            AppMessage::Led0On
        } else {
            AppMessage::Led0Off
        };
        assert_eq!(*m, expected);
    }
}

#[test]
fn outgoing_events_pop_most_recent_first() {
    let mut app = looper_with_capacity(8);
    app.handle_message(AppMessage::Button0Down);
    app.handle_message(AppMessage::Button1Down);
    // last in, first out
    assert_eq!(app.next_outgoing_message(), Some(AppMessage::Led1On));
    assert_eq!(app.next_outgoing_message(), Some(AppMessage::Led0On));
    assert_eq!(app.next_outgoing_message(), None);
}
