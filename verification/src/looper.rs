//! The echo-capable looper: an oscillator, a fixed-capacity record/playback
//! buffer, an adaptive-filter integration point and a bounded event outbox,
//! composed by a button-driven recording state machine.
//!
//! Buttons arrive as [`AppMessage`] button-down events; LED on/off events
//! leave through the outbox. Audio moves through [`NlmsDemoApp::process`]
//! one frame at a time: the oscillator mixes a modulated tone into the
//! output, the state machine then records the input into the buffer or plays
//! the buffer back into the output, and the produced frame is cached as the
//! next frame's filter reference.

use vstd::prelude::*;
use vstd::arithmetic::div_mod::{lemma_add_mod_noop_right, lemma_mod_bound, lemma_small_mod};
use crate::{spec_is_led_event, AppMessage};
use crate::buffer::{advance_with_wrap, CircularAudioBuffer};
use crate::filtering::{AdaptiveFilter, FilterCall};
use crate::oscillator::{
    lemma_osc_output_bounded, lemma_osc_step_wf, lemma_osc_with_frequency_wf, osc_output,
    osc_reset_phase, osc_step, osc_wf, osc_with_frequency, Oscillator, OscillatorView,
    MAX_SAMPLE_RATE,
};
use crate::queue::{lemma_push_bounded, spec_push, OutgoingEventQueue};
use crate::sample::{
    div_trunc, lemma_tdiv_bound, lemma_tdiv_multiple, tdiv, CACHE_BOUND, FP_ONE, SAMPLE_BOUND,
};

verus! {

/// Default capacity of the record buffer, in samples.
pub const RECORD_BUFFER_SIZE: usize = 4000;

/// Capacity of the outgoing-event outbox.
pub const OUT_MSG_BUFFER_SIZE: usize = 16;

/// Hard maximum frame size a caller may pass (exclusive): frames must be
/// strictly shorter, and the previous-output cache holds this many samples.
pub const MAX_TX_BUFFER_SIZE: usize = 512;

/// Base frequency of the tone oscillator, in millihertz (440 Hz).
pub const OSC_FREQ_MHZ: i64 = 440000;

/// Frequency of the pitch-modulating oscillator, in millihertz (1 Hz).
pub const LFO_FREQ_MHZ: i64 = 1000;

/// Lowest supported sample rate in Hz; keeps the modulated carrier below
/// the rate, as the oscillator's phase-wrap invariant demands.
pub const MIN_SAMPLE_RATE: i64 = 1000;

/// The recording state: exactly one of these holds at any time.
#[derive(Clone, Copy, Debug, PartialEq, Eq, Structural)]
pub enum RecordingState {
    Playing,
    Recording,
    Idle,
}

/// The mathematical state of the looper, as the contracts speak of it. The
/// external adaptive filter's own coefficients are opaque and not part of
/// this state.
#[verifier::ext_equal]
pub struct LooperView {
    pub recording_state: RecordingState,
    pub oscillator_enabled: bool,
    pub filter_is_active: bool,
    pub record_buffer: Seq<i64>,
    pub record_buffer_pos: int,
    pub out_msgs: Seq<AppMessage>,
    pub out_msg_capacity: int,
    pub tx_prev: Seq<i64>,
    pub tone_osc: OscillatorView,
    pub pitch_lfo: OscillatorView,
}

/// Well-formedness: the cursor stays inside the buffer (it may rest exactly
/// at the capacity only while idle, right after a full recording), recorded
/// samples and the previous-output cache stay bounded, the outbox respects
/// its capacity, and both oscillators are well formed at one supported rate.
pub open spec fn looper_wf(v: LooperView) -> bool {
    &&& 1 <= v.record_buffer.len()
    &&& 0 <= v.record_buffer_pos <= v.record_buffer.len()
    &&& (v.recording_state != RecordingState::Idle ==> v.record_buffer_pos
        < v.record_buffer.len())
    &&& (forall|i: int|
        0 <= i < v.record_buffer.len() ==> -SAMPLE_BOUND <= #[trigger] v.record_buffer[i]
            <= SAMPLE_BOUND)
    &&& v.out_msgs.len() <= v.out_msg_capacity
    &&& (forall|i: int| 0 <= i < v.out_msgs.len() ==> spec_is_led_event(#[trigger] v.out_msgs[i]))
    &&& v.tx_prev.len() == MAX_TX_BUFFER_SIZE
    &&& (forall|i: int|
        0 <= i < v.tx_prev.len() ==> -CACHE_BOUND <= #[trigger] v.tx_prev[i] <= CACHE_BOUND)
    &&& osc_wf(v.tone_osc)
    &&& osc_wf(v.pitch_lfo)
    &&& v.tone_osc.sample_rate == v.pitch_lfo.sample_rate
    &&& MIN_SAMPLE_RATE <= v.tone_osc.sample_rate
}

/// A view with one message pushed onto the outbox (dropped when full).
pub open spec fn spec_send(v: LooperView, m: AppMessage) -> LooperView {
    LooperView { out_msgs: spec_push(v.out_msgs, v.out_msg_capacity, m), ..v }
}

/// The state machine's reaction to one incoming event.
///
/// Only button-down events act: the oscillator button toggles the tone
/// (resetting both oscillators on enable), the filter button toggles the
/// filter flag (which takes effect only while recording), the record button
/// moves Idle/Playing to Recording (cursor
/// rewound) and Recording back to Idle, and the playback button moves Idle
/// to Playing (cursor rewound) and Playing back to Idle while being ignored
/// entirely during Recording. Every acted-on event emits the matching LED
/// event. Button-up events and LED events change nothing.
pub open spec fn spec_handle_message(v: LooperView, m: AppMessage) -> LooperView {
    match m {
        AppMessage::Button0Down => if v.oscillator_enabled {
            spec_send(LooperView { oscillator_enabled: false, ..v }, AppMessage::Led0Off)
        } else {
            spec_send(
                LooperView {
                    oscillator_enabled: true,
                    tone_osc: osc_reset_phase(v.tone_osc),
                    pitch_lfo: osc_reset_phase(v.pitch_lfo),
                    ..v
                },
                AppMessage::Led0On,
            )
        },
        AppMessage::Button1Down => if v.filter_is_active {
            spec_send(LooperView { filter_is_active: false, ..v }, AppMessage::Led1Off)
        } else {
            spec_send(LooperView { filter_is_active: true, ..v }, AppMessage::Led1On)
        },
        AppMessage::Button2Down => match v.recording_state {
            RecordingState::Idle | RecordingState::Playing => spec_send(
                LooperView {
                    record_buffer_pos: 0,
                    recording_state: RecordingState::Recording,
                    ..v
                },
                AppMessage::Led2On,
            ),
            RecordingState::Recording => spec_send(
                LooperView { recording_state: RecordingState::Idle, ..v },
                AppMessage::Led2Off,
            ),
        },
        AppMessage::Button3Down => match v.recording_state {
            RecordingState::Idle => spec_send(
                LooperView {
                    record_buffer_pos: 0,
                    recording_state: RecordingState::Playing,
                    ..v
                },
                AppMessage::Led3On,
            ),
            RecordingState::Playing => spec_send(
                LooperView { recording_state: RecordingState::Idle, ..v },
                AppMessage::Led3Off,
            ),
            RecordingState::Recording => v,
        },
        _ => v,
    }
}

/// The state after a whole sequence of incoming events, oldest first.
pub open spec fn spec_run_events(v: LooperView, ms: Seq<AppMessage>) -> LooperView
    decreases ms.len(),
{
    if ms.len() == 0 {
        v
    } else {
        spec_run_events(spec_handle_message(v, ms[0]), ms.subrange(1, ms.len() as int))
    }
}

/// Handling one event preserves well-formedness.
pub proof fn lemma_handle_message_preserves_wf(v: LooperView, m: AppMessage)
    requires
        looper_wf(v),
    ensures
        looper_wf(spec_handle_message(v, m)),
{
    lemma_push_bounded(v.out_msgs, v.out_msg_capacity, AppMessage::Led0On);
    lemma_push_bounded(v.out_msgs, v.out_msg_capacity, AppMessage::Led0Off);
    lemma_push_bounded(v.out_msgs, v.out_msg_capacity, AppMessage::Led1On);
    lemma_push_bounded(v.out_msgs, v.out_msg_capacity, AppMessage::Led1Off);
    lemma_push_bounded(v.out_msgs, v.out_msg_capacity, AppMessage::Led2On);
    lemma_push_bounded(v.out_msgs, v.out_msg_capacity, AppMessage::Led2Off);
    lemma_push_bounded(v.out_msgs, v.out_msg_capacity, AppMessage::Led3On);
    lemma_push_bounded(v.out_msgs, v.out_msg_capacity, AppMessage::Led3Off);
}

/// After any sequence of handled events the looper is still well formed and
/// its recording state is exactly one of Idle, Recording and Playing.
pub proof fn lemma_run_events_keeps_state_valid(v: LooperView, ms: Seq<AppMessage>)
    requires
        looper_wf(v),
    ensures
        looper_wf(spec_run_events(v, ms)),
        spec_run_events(v, ms).recording_state == RecordingState::Idle
            || spec_run_events(v, ms).recording_state == RecordingState::Recording
            || spec_run_events(v, ms).recording_state == RecordingState::Playing,
    decreases ms.len(),
{
    if ms.len() > 0 {
        lemma_handle_message_preserves_wf(v, ms[0]);
        lemma_run_events_keeps_state_valid(
            spec_handle_message(v, ms[0]),
            ms.subrange(1, ms.len() as int),
        );
    }
}

/// Toggling the oscillator button twice restores the oscillator-enabled
/// flag, and toggling the filter button twice restores the filter-active
/// flag.
pub proof fn lemma_toggle_twice_restores(v: LooperView)
    ensures
        spec_handle_message(
            spec_handle_message(v, AppMessage::Button0Down),
            AppMessage::Button0Down,
        ).oscillator_enabled == v.oscillator_enabled,
        spec_handle_message(
            spec_handle_message(v, AppMessage::Button1Down),
            AppMessage::Button1Down,
        ).filter_is_active == v.filter_is_active,
{
}

/// The playback button is ignored entirely while recording: no state change
/// and no event.
pub proof fn lemma_playback_ignored_while_recording(v: LooperView)
    requires
        v.recording_state == RecordingState::Recording,
    ensures
        spec_handle_message(v, AppMessage::Button3Down) == v,
{
}

/// The instantaneous carrier frequency derived from one modulation sample:
/// the base frequency scaled by one plus a tenth of the modulation value.
pub open spec fn mix_freq_mhz(lfo_out: int) -> int {
    OSC_FREQ_MHZ + tdiv(OSC_FREQ_MHZ * lfo_out, 10 * FP_ONE)
}

/// The modulation and tone oscillator states after `k` mixed samples. Each
/// sample takes one modulation sample, retunes the tone oscillator to the
/// derived carrier frequency and takes one tone sample.
pub open spec fn mix_states(lfo: OscillatorView, tone: OscillatorView, k: nat) -> (
    OscillatorView,
    OscillatorView,
)
    decreases k,
{
    if k == 0 {
        (lfo, tone)
    } else {
        let (l, t) = mix_states(lfo, tone, (k - 1) as nat);
        (osc_step(l), osc_step(osc_with_frequency(t, mix_freq_mhz(osc_output(l)))))
    }
}

/// The oscillator contribution added into output sample `k`: a tenth of the
/// retuned tone oscillator's sample.
pub open spec fn mix_contribution(lfo: OscillatorView, tone: OscillatorView, k: nat) -> int {
    let (l, t) = mix_states(lfo, tone, k);
    tdiv(osc_output(osc_with_frequency(t, mix_freq_mhz(osc_output(l)))), 10)
}

/// The derived carrier frequency stays within a tenth of four full-scale
/// modulation samples around the base frequency.
pub proof fn lemma_mix_freq_bounds(lfo: OscillatorView)
    requires
        osc_wf(lfo),
    ensures
        OSC_FREQ_MHZ - 176000 <= mix_freq_mhz(osc_output(lfo)) <= OSC_FREQ_MHZ + 176000,
{
    lemma_osc_output_bounded(lfo);
    let out = osc_output(lfo);
    assert(-1760000 * FP_ONE <= OSC_FREQ_MHZ * out <= 1760000 * FP_ONE) by (nonlinear_arith)
        requires
            -4 * FP_ONE <= out <= 4 * FP_ONE,
    ;
    lemma_tdiv_bound(OSC_FREQ_MHZ * out, 1760000 * FP_ONE, 10 * FP_ONE);
    lemma_tdiv_multiple(176000, 10 * FP_ONE);
    assert(1760000 * FP_ONE == 176000 * (10 * FP_ONE));
    assert((1760000 * FP_ONE) / (10 * FP_ONE) == 176000);
}

/// One mixing step preserves oscillator well-formedness and keeps the
/// contribution inside one fixed-point unit.
pub proof fn lemma_mix_step_wf(l: OscillatorView, t: OscillatorView)
    requires
        osc_wf(l),
        osc_wf(t),
        t.sample_rate == l.sample_rate,
        MIN_SAMPLE_RATE <= t.sample_rate,
    ensures
        osc_wf(osc_step(l)),
        osc_wf(osc_with_frequency(t, mix_freq_mhz(osc_output(l)))),
        osc_wf(osc_step(osc_with_frequency(t, mix_freq_mhz(osc_output(l))))),
        osc_step(l).sample_rate == l.sample_rate,
        osc_step(l).d_phase == l.d_phase,
        osc_step(osc_with_frequency(t, mix_freq_mhz(osc_output(l)))).sample_rate == t.sample_rate,
        -FP_ONE <= tdiv(osc_output(osc_with_frequency(t, mix_freq_mhz(osc_output(l)))), 10)
            <= FP_ONE,
{
    lemma_mix_freq_bounds(l);
    let freq = mix_freq_mhz(osc_output(l));
    lemma_osc_with_frequency_wf(t, freq);
    let t2 = osc_with_frequency(t, freq);
    lemma_osc_step_wf(l);
    lemma_osc_step_wf(t2);
    lemma_osc_output_bounded(t2);
    lemma_tdiv_bound(osc_output(t2), 4 * FP_ONE, 10);
}

/// Any number of mixing steps preserves oscillator well-formedness, keeps
/// both rates, and keeps every contribution inside one fixed-point unit.
pub proof fn lemma_mix_states_wf(lfo: OscillatorView, tone: OscillatorView, k: nat)
    requires
        osc_wf(lfo),
        osc_wf(tone),
        tone.sample_rate == lfo.sample_rate,
        MIN_SAMPLE_RATE <= tone.sample_rate,
    ensures
        osc_wf(mix_states(lfo, tone, k).0),
        osc_wf(mix_states(lfo, tone, k).1),
        mix_states(lfo, tone, k).0.sample_rate == lfo.sample_rate,
        mix_states(lfo, tone, k).1.sample_rate == tone.sample_rate,
        -FP_ONE <= mix_contribution(lfo, tone, k) <= FP_ONE,
    decreases k,
{
    if k == 0 {
        lemma_mix_step_wf(lfo, tone);
    } else {
        lemma_mix_states_wf(lfo, tone, (k - 1) as nat);
        let (l, t) = mix_states(lfo, tone, (k - 1) as nat);
        lemma_mix_step_wf(l, t);
        let (l2, t2) = mix_states(lfo, tone, k);
        lemma_mix_step_wf(l2, t2);
    }
}

/// A cache with the frame written over its prefix and the tail kept.
pub open spec fn spec_overwrite_prefix(cache: Seq<i64>, tx: Seq<i64>) -> Seq<i64> {
    Seq::new(cache.len(), |i: int| if i < tx.len() { tx[i] } else { cache[i] })
}

/// How many input samples a recording pass consumes: the whole frame, or
/// just enough to fill the buffer.
pub open spec fn record_take(v: LooperView, n: int) -> int {
    let room = v.record_buffer.len() - v.record_buffer_pos;
    if n <= room {
        n
    } else {
        room
    }
}

/// The output frame after the oscillator mixing stage: each sample gains one
/// oscillator contribution when the oscillator is enabled.
pub open spec fn spec_mixed_tx(v: LooperView, tx: Seq<i64>) -> Seq<int> {
    Seq::new(
        tx.len() as nat,
        |i: int|
            if v.oscillator_enabled {
                tx[i] + mix_contribution(v.pitch_lfo, v.tone_osc, i as nat)
            } else {
                tx[i] as int
            },
    )
}

/// The produced output frame: the mixed frame, plus the recorded loop read
/// from the advancing cursor while playing.
pub open spec fn spec_output_tx(v: LooperView, tx: Seq<i64>) -> Seq<int> {
    let mixed = spec_mixed_tx(v, tx);
    if v.recording_state == RecordingState::Playing {
        Seq::new(
            mixed.len(),
            |i: int|
                mixed[i] + v.record_buffer[(v.record_buffer_pos + i) % (
                v.record_buffer.len() as int)],
        )
    } else {
        mixed
    }
}

/// Both oscillator states after a frame of `n` samples: advanced `n` times
/// when the oscillator is enabled, untouched otherwise.
pub open spec fn spec_oscs_after(v: LooperView, n: nat) -> (OscillatorView, OscillatorView) {
    if v.oscillator_enabled {
        mix_states(v.pitch_lfo, v.tone_osc, n)
    } else {
        (v.pitch_lfo, v.tone_osc)
    }
}

/// The looper demo: a recording state machine over a tone oscillator, a
/// record/playback buffer, an external adaptive filter and an event outbox.
pub struct NlmsDemoApp<F: AdaptiveFilter> {
    filter: F,
    tx_prev: Vec<i64>,
    record_buffer: CircularAudioBuffer,
    record_buffer_pos: usize,
    out_msg_buffer: OutgoingEventQueue,
    filter_is_active: bool,
    oscillator_enabled: bool,
    recording_state: RecordingState,
    tone_osc: Oscillator,
    pitch_lfo: Oscillator,
}

impl<F: AdaptiveFilter> View for NlmsDemoApp<F> {
    type V = LooperView;

    closed spec fn view(&self) -> LooperView {
        LooperView {
            recording_state: self.recording_state,
            oscillator_enabled: self.oscillator_enabled,
            filter_is_active: self.filter_is_active,
            record_buffer: self.record_buffer@,
            record_buffer_pos: self.record_buffer_pos as int,
            out_msgs: self.out_msg_buffer@,
            out_msg_capacity: self.out_msg_buffer.spec_capacity(),
            tx_prev: self.tx_prev@,
            tone_osc: self.tone_osc@,
            pitch_lfo: self.pitch_lfo@,
        }
    }
}

impl<F: AdaptiveFilter> NlmsDemoApp<F> {
    /// The adaptive filter's ghost call history: which (reference, input)
    /// pairs the filter answered since its last reset, oldest first, and
    /// with what output.
    pub closed spec fn filter_history(&self) -> Seq<FilterCall> {
        self.filter.history()
    }

    /// A fresh looper with a record buffer of the given capacity: idle, both
    /// flags off, tone oscillator tuned to the base frequency and the
    /// modulation oscillator to 1 Hz.
    pub fn with_record_capacity(sample_rate: i64, capacity: usize, filter: F) -> (r: Self)
        requires
            MIN_SAMPLE_RATE <= sample_rate <= MAX_SAMPLE_RATE,
            capacity >= 1,
        ensures
            looper_wf(r@),
            r@.recording_state == RecordingState::Idle,
            !r@.oscillator_enabled,
            !r@.filter_is_active,
            r@.record_buffer.len() == capacity,
            forall|i: int| 0 <= i < capacity ==> r@.record_buffer[i] == 0i64,
            r@.record_buffer_pos == 0,
            r@.out_msgs == Seq::<AppMessage>::empty(),
            r@.out_msg_capacity == OUT_MSG_BUFFER_SIZE as int,
            r@.tx_prev.len() == MAX_TX_BUFFER_SIZE,
            forall|i: int| 0 <= i < r@.tx_prev.len() ==> r@.tx_prev[i] == 0i64,
            r@.tone_osc == osc_with_frequency(
                (OscillatorView {
                    phase: -(FP_ONE as int),
                    d_phase: 0,
                    sample_rate: sample_rate as int,
                }),
                OSC_FREQ_MHZ as int,
            ),
            r@.pitch_lfo == osc_with_frequency(
                (OscillatorView {
                    phase: -(FP_ONE as int),
                    d_phase: 0,
                    sample_rate: sample_rate as int,
                }),
                LFO_FREQ_MHZ as int,
            ),
            r.filter_history() == filter.history(),
    {
        let mut tone_osc = Oscillator::new(sample_rate);
        tone_osc.set_frequency(OSC_FREQ_MHZ);
        let mut pitch_lfo = Oscillator::new(sample_rate);
        pitch_lfo.set_frequency(LFO_FREQ_MHZ);
        let tx_prev: Vec<i64> = vec![0i64; MAX_TX_BUFFER_SIZE];
        NlmsDemoApp {
            filter,
            tx_prev,
            record_buffer: CircularAudioBuffer::new(capacity),
            record_buffer_pos: 0,
            out_msg_buffer: OutgoingEventQueue::new(OUT_MSG_BUFFER_SIZE),
            filter_is_active: false,
            oscillator_enabled: false,
            recording_state: RecordingState::Idle,
            tone_osc,
            pitch_lfo,
        }
    }

    /// A fresh looper with the default record-buffer capacity.
    pub fn new(sample_rate: i64, filter: F) -> (r: Self)
        requires
            MIN_SAMPLE_RATE <= sample_rate <= MAX_SAMPLE_RATE,
        ensures
            looper_wf(r@),
            r@.recording_state == RecordingState::Idle,
            !r@.oscillator_enabled,
            !r@.filter_is_active,
            r@.record_buffer.len() == RECORD_BUFFER_SIZE,
            forall|i: int| 0 <= i < RECORD_BUFFER_SIZE ==> r@.record_buffer[i] == 0i64,
            r@.record_buffer_pos == 0,
            r@.out_msgs == Seq::<AppMessage>::empty(),
            r@.out_msg_capacity == OUT_MSG_BUFFER_SIZE as int,
            r@.tx_prev.len() == MAX_TX_BUFFER_SIZE,
            forall|i: int| 0 <= i < r@.tx_prev.len() ==> r@.tx_prev[i] == 0i64,
            r@.tone_osc == osc_with_frequency(
                (OscillatorView {
                    phase: -(FP_ONE as int),
                    d_phase: 0,
                    sample_rate: sample_rate as int,
                }),
                OSC_FREQ_MHZ as int,
            ),
            r@.pitch_lfo == osc_with_frequency(
                (OscillatorView {
                    phase: -(FP_ONE as int),
                    d_phase: 0,
                    sample_rate: sample_rate as int,
                }),
                LFO_FREQ_MHZ as int,
            ),
            r.filter_history() == filter.history(),
    {
        Self::with_record_capacity(sample_rate, RECORD_BUFFER_SIZE, filter)
    }

    /// Pushes an event onto the outbox, dropping it when the outbox is full.
    fn send_message(&mut self, message: AppMessage)
        ensures
            final(self)@ == spec_send(old(self)@, message),
            final(self).filter_history() == old(self).filter_history(),
    {
        self.out_msg_buffer.push(message);
        proof {
            assert(self@ =~= spec_send(old(self)@, message));
        }
    }

    /// Reacts to one incoming event exactly as [`spec_handle_message`] says.
    pub fn handle_message(&mut self, message: AppMessage)
        ensures
            final(self)@ == spec_handle_message(old(self)@, message),
            looper_wf(old(self)@) ==> looper_wf(final(self)@),
            final(self).filter_history() == (if message == AppMessage::Button2Down && old(
                self,
            )@.recording_state != RecordingState::Recording {
                Seq::<FilterCall>::empty()
            } else {
                old(self).filter_history()
            }),
    {
        proof {
            if looper_wf(self@) {
                lemma_handle_message_preserves_wf(self@, message);
            }
        }
        match message {
            AppMessage::Button0Down => {
                if self.oscillator_enabled {
                    self.oscillator_enabled = false;
                    self.send_message(AppMessage::Led0Off);
                } else {
                    self.oscillator_enabled = true;
                    self.send_message(AppMessage::Led0On);
                    self.tone_osc.reset();
                    self.pitch_lfo.reset();
                }
            },
            AppMessage::Button1Down => {
                self.filter_is_active = !self.filter_is_active;
                if self.filter_is_active {
                    self.send_message(AppMessage::Led1On);
                } else {
                    self.send_message(AppMessage::Led1Off);
                }
            },
            AppMessage::Button2Down => {
                match self.recording_state {
                    RecordingState::Idle | RecordingState::Playing => {
                        self.record_buffer_pos = 0;
                        self.recording_state = RecordingState::Recording;
                        self.filter.reset();
                        self.send_message(AppMessage::Led2On);
                    },
                    RecordingState::Recording => {
                        self.stop_recording();
                    },
                }
            },
            AppMessage::Button3Down => {
                match self.recording_state {
                    RecordingState::Idle => {
                        self.record_buffer_pos = 0;
                        self.recording_state = RecordingState::Playing;
                        self.send_message(AppMessage::Led3On);
                    },
                    RecordingState::Playing => {
                        self.recording_state = RecordingState::Idle;
                        self.send_message(AppMessage::Led3Off);
                    },
                    RecordingState::Recording => {},
                }
            },
            _ => {},
        }
        proof {
            assert(self@ =~= spec_handle_message(old(self)@, message));
        }
    }

    /// The Recording-to-Idle edge: flips the state and emits the record LED
    /// off event.
    fn stop_recording(&mut self)
        requires
            old(self)@.recording_state == RecordingState::Recording,
        ensures
            final(self)@ == spec_send(
                (LooperView { recording_state: RecordingState::Idle, ..old(self)@ }),
                AppMessage::Led2Off,
            ),
            final(self).filter_history() == old(self).filter_history(),
    {
        self.recording_state = RecordingState::Idle;
        self.send_message(AppMessage::Led2Off);
        proof {
            assert(self@ =~= spec_send(
                (LooperView { recording_state: RecordingState::Idle, ..old(self)@ }),
                AppMessage::Led2Off,
            ));
        }
    }

    /// Removes and returns the most recently emitted outgoing event, or
    /// `None` when the outbox is empty.
    pub fn next_outgoing_message(&mut self) -> (r: Option<AppMessage>)
        ensures
            old(self)@.out_msgs.len() == 0 ==> r is None && final(self)@ == old(self)@,
            old(self)@.out_msgs.len() > 0 ==> r == Some(old(self)@.out_msgs.last())
                && final(self)@ == (LooperView {
                out_msgs: old(self)@.out_msgs.drop_last(),
                ..old(self)@
            }),
            looper_wf(old(self)@) ==> looper_wf(final(self)@),
            looper_wf(old(self)@) && r is Some ==> spec_is_led_event(r->0),
            final(self).filter_history() == old(self).filter_history(),
    {
        let r = self.out_msg_buffer.pop();
        proof {
            if old(self)@.out_msgs.len() > 0 {
                assert(self@ =~= (LooperView {
                    out_msgs: old(self)@.out_msgs.drop_last(),
                    ..old(self)@
                }));
            } else {
                assert(self@ =~= old(self)@);
            }
        }
        r
    }

    /// The current recording state.
    pub fn recording_state(&self) -> (r: RecordingState)
        ensures
            r == self@.recording_state,
    {
        self.recording_state
    }

    /// Whether the tone oscillator is currently enabled.
    pub fn oscillator_enabled(&self) -> (r: bool)
        ensures
            r == self@.oscillator_enabled,
    {
        self.oscillator_enabled
    }

    /// Whether the adaptive filter is currently active.
    pub fn filter_is_active(&self) -> (r: bool)
        ensures
            r == self@.filter_is_active,
    {
        self.filter_is_active
    }

    /// The current record/playback cursor.
    pub fn record_buffer_pos(&self) -> (r: usize)
        ensures
            r as int == self@.record_buffer_pos,
    {
        self.record_buffer_pos
    }

    /// Stage one of a frame: mixes one gain-scaled, pitch-modulated tone
    /// sample into every output sample and advances both oscillators.
    fn mix_oscillators(&mut self, tx: &mut Vec<i64>)
        requires
            looper_wf(old(self)@),
            old(tx)@.len() < MAX_TX_BUFFER_SIZE,
            forall|i: int|
                0 <= i < old(tx)@.len() ==> -SAMPLE_BOUND <= #[trigger] old(tx)@[i]
                    <= SAMPLE_BOUND,
        ensures
            final(tx)@.len() == old(tx)@.len(),
            forall|i: int|
                0 <= i < final(tx)@.len() ==> #[trigger] final(tx)@[i] == old(tx)@[i] + mix_contribution(
                    old(self)@.pitch_lfo,
                    old(self)@.tone_osc,
                    i as nat,
                ),
            forall|i: int|
                0 <= i < final(tx)@.len() ==> -(SAMPLE_BOUND + FP_ONE) <= #[trigger] final(tx)@[i]
                    <= SAMPLE_BOUND + FP_ONE,
            final(self)@ == (LooperView {
                pitch_lfo: mix_states(
                    old(self)@.pitch_lfo,
                    old(self)@.tone_osc,
                    final(tx)@.len() as nat,
                ).0,
                tone_osc: mix_states(
                    old(self)@.pitch_lfo,
                    old(self)@.tone_osc,
                    final(tx)@.len() as nat,
                ).1,
                ..old(self)@
            }),
            looper_wf(final(self)@),
            final(self).filter_history() == old(self).filter_history(),
    {
        let ghost l0 = self@.pitch_lfo;
        let ghost t0 = self@.tone_osc;
        let n = tx.len();
        let mut i: usize = 0;
        while i < n
            invariant
                i <= n,
                n == tx@.len(),
                n == old(tx)@.len(),
                looper_wf(old(self)@),
                l0 == old(self)@.pitch_lfo,
                t0 == old(self)@.tone_osc,
                self@ == (LooperView {
                    pitch_lfo: mix_states(l0, t0, i as nat).0,
                    tone_osc: mix_states(l0, t0, i as nat).1,
                    ..old(self)@
                }),
                self.filter_history() == old(self).filter_history(),
                forall|j: int|
                    0 <= j < old(tx)@.len() ==> -SAMPLE_BOUND <= #[trigger] old(tx)@[j]
                        <= SAMPLE_BOUND,
                forall|j: int| i <= j < n ==> #[trigger] tx@[j] == old(tx)@[j],
                forall|j: int|
                    0 <= j < i ==> #[trigger] tx@[j] == old(tx)@[j] + mix_contribution(
                        l0,
                        t0,
                        j as nat,
                    ),
                forall|j: int|
                    0 <= j < i ==> -(SAMPLE_BOUND + FP_ONE) <= #[trigger] tx@[j] <= SAMPLE_BOUND
                        + FP_ONE,
            decreases n - i,
        {
            proof {
                lemma_mix_states_wf(l0, t0, i as nat);
                let (l, t) = mix_states(l0, t0, i as nat);
                lemma_mix_step_wf(l, t);
                lemma_mix_freq_bounds(l);
                lemma_osc_output_bounded(l);
            }
            let lfo_s = self.pitch_lfo.next_sample();
            let dev = div_trunc(OSC_FREQ_MHZ * lfo_s, 10 * FP_ONE);
            let freq = OSC_FREQ_MHZ + dev;
            self.tone_osc.set_frequency(freq);
            let s = self.tone_osc.next_sample();
            proof {
                lemma_tdiv_bound(s as int, 4 * FP_ONE, 10);
            }
            let contribution = div_trunc(s, 10);
            let current = tx[i];
            tx.set(i, current + contribution);
            i = i + 1;
            proof {
                assert(mix_states(l0, t0, i as nat) == (
                    osc_step(mix_states(l0, t0, (i - 1) as nat).0),
                    osc_step(
                        osc_with_frequency(
                            mix_states(l0, t0, (i - 1) as nat).1,
                            mix_freq_mhz(osc_output(mix_states(l0, t0, (i - 1) as nat).0)),
                        ),
                    ),
                ));
                assert(self@ =~= (LooperView {
                    pitch_lfo: mix_states(l0, t0, i as nat).0,
                    tone_osc: mix_states(l0, t0, i as nat).1,
                    ..old(self)@
                }));
            }
        }
        proof {
            lemma_mix_states_wf(l0, t0, n as nat);
        }
    }

    /// Stage two while playing: adds the recorded loop into the output,
    /// advancing the cursor with wraparound.
    fn play_samples(&mut self, tx: &mut Vec<i64>)
        requires
            looper_wf(old(self)@),
            old(self)@.recording_state == RecordingState::Playing,
            old(tx)@.len() < MAX_TX_BUFFER_SIZE,
            forall|i: int|
                0 <= i < old(tx)@.len() ==> -(SAMPLE_BOUND + FP_ONE) <= #[trigger] old(tx)@[i]
                    <= SAMPLE_BOUND + FP_ONE,
        ensures
            final(tx)@.len() == old(tx)@.len(),
            forall|i: int|
                0 <= i < final(tx)@.len() ==> #[trigger] final(tx)@[i] == old(tx)@[i] + old(self)@.record_buffer[(old(self)@.record_buffer_pos + i) % (
                old(self)@.record_buffer.len() as int)],
            forall|i: int|
                0 <= i < final(tx)@.len() ==> -CACHE_BOUND <= #[trigger] final(tx)@[i] <= CACHE_BOUND,
            final(self)@ == (LooperView {
                record_buffer_pos: (old(self)@.record_buffer_pos + old(tx)@.len()) % (
                old(self)@.record_buffer.len() as int),
                ..old(self)@
            }),
            looper_wf(final(self)@),
            final(self).filter_history() == old(self).filter_history(),
    {
        let ghost pos0 = self@.record_buffer_pos;
        let ghost cap_s = self@.record_buffer.len() as int;
        let n = tx.len();
        let capacity = self.record_buffer.capacity();
        let mut i: usize = 0;
        proof {
            lemma_small_mod(pos0 as nat, cap_s as nat);
        }
        while i < n
            invariant
                i <= n,
                n == tx@.len(),
                n == old(tx)@.len(),
                looper_wf(old(self)@),
                old(self)@.recording_state == RecordingState::Playing,
                pos0 == old(self)@.record_buffer_pos,
                cap_s == old(self)@.record_buffer.len() as int,
                capacity as int == cap_s,
                self@ == (LooperView { record_buffer_pos: (pos0 + i) % cap_s, ..old(self)@ }),
                self.filter_history() == old(self).filter_history(),
                forall|j: int|
                    0 <= j < old(tx)@.len() ==> -(SAMPLE_BOUND + FP_ONE) <= #[trigger] old(tx)@[j] <= SAMPLE_BOUND + FP_ONE,
                forall|j: int| i <= j < n ==> #[trigger] tx@[j] == old(tx)@[j],
                forall|j: int|
                    0 <= j < i ==> #[trigger] tx@[j] == old(tx)@[j] + old(self)@.record_buffer[(pos0 + j) % cap_s],
                forall|j: int| 0 <= j < i ==> -CACHE_BOUND <= #[trigger] tx@[j] <= CACHE_BOUND,
            decreases n - i,
        {
            proof {
                lemma_mod_bound(pos0 + i, cap_s);
            }
            let s = self.record_buffer.read_at(self.record_buffer_pos);
            let current = tx[i];
            tx.set(i, current + s);
            let next_pos = advance_with_wrap(self.record_buffer_pos, capacity);
            self.record_buffer_pos = next_pos;
            i = i + 1;
            proof {
                lemma_add_mod_noop_right(1, pos0 + i - 1, cap_s);
                assert((1 + (pos0 + i - 1) % cap_s) % cap_s == (pos0 + i) % cap_s);
                assert(self@ =~= (LooperView {
                    record_buffer_pos: (pos0 + i) % cap_s,
                    ..old(self)@
                }));
            }
        }
    }

    /// Stage two while recording: stores input samples (filtered against the
    /// previous-output cache when the filter is active) at the advancing
    /// cursor, stopping the moment the buffer fills and taking the automatic
    /// Recording-to-Idle edge.
    fn record_samples(&mut self, rx: &Vec<i64>)
        requires
            looper_wf(old(self)@),
            old(self)@.recording_state == RecordingState::Recording,
            rx@.len() < MAX_TX_BUFFER_SIZE,
            forall|i: int|
                0 <= i < rx@.len() ==> -SAMPLE_BOUND <= #[trigger] rx@[i] <= SAMPLE_BOUND,
        ensures
            ({
                let take = record_take(old(self)@, rx@.len() as int);
                let pos = old(self)@.record_buffer_pos;
                let cap = old(self)@.record_buffer.len() as int;
                &&& final(self)@.record_buffer_pos == pos + take
                &&& final(self)@.record_buffer.len() == cap
                &&& (!old(self)@.filter_is_active ==> forall|j: int|
                    0 <= j < take ==> #[trigger] final(self)@.record_buffer[pos + j] == rx@[j])
                &&& (forall|j: int|
                    0 <= j < take ==> -SAMPLE_BOUND <= #[trigger] final(self)@.record_buffer[pos
                        + j] <= SAMPLE_BOUND)
                &&& (forall|i: int|
                    0 <= i < cap && !(pos <= i < pos + take)
                        ==> #[trigger] final(self)@.record_buffer[i] == old(self)@.record_buffer[i])
                &&& (pos + take == cap ==> final(self)@.recording_state == RecordingState::Idle
                    && final(self)@.out_msgs == spec_push(
                    old(self)@.out_msgs,
                    old(self)@.out_msg_capacity,
                    AppMessage::Led2Off,
                ))
                &&& (pos + take < cap ==> final(self)@.recording_state
                    == RecordingState::Recording && final(self)@.out_msgs == old(self)@.out_msgs)
                &&& final(self)@.oscillator_enabled == old(self)@.oscillator_enabled
                &&& final(self)@.filter_is_active == old(self)@.filter_is_active
                &&& final(self)@.out_msg_capacity == old(self)@.out_msg_capacity
                &&& final(self)@.tx_prev == old(self)@.tx_prev
                &&& final(self)@.tone_osc == old(self)@.tone_osc
                &&& final(self)@.pitch_lfo == old(self)@.pitch_lfo
                &&& (old(self)@.filter_is_active ==> final(self).filter_history() == old(
                    self,
                ).filter_history() + Seq::new(
                    take as nat,
                    |j: int|
                        (FilterCall {
                            reference: old(self)@.tx_prev[j],
                            input: rx@[j],
                            output: final(self)@.record_buffer[pos + j],
                        }),
                ))
                &&& (!old(self)@.filter_is_active ==> final(self).filter_history() == old(
                    self,
                ).filter_history())
            }),
            looper_wf(final(self)@),
    {
        let ghost pos0 = self@.record_buffer_pos;
        let n = rx.len();
        let capacity = self.record_buffer.capacity();
        let mut j: usize = 0;
        while j < n && self.record_buffer_pos < capacity
            invariant
                j <= n,
                n == rx@.len(),
                n < MAX_TX_BUFFER_SIZE,
                looper_wf(old(self)@),
                old(self)@.recording_state == RecordingState::Recording,
                pos0 == old(self)@.record_buffer_pos,
                capacity as int == old(self)@.record_buffer.len(),
                self@.record_buffer_pos == pos0 + j,
                pos0 + j <= capacity as int,
                self@.record_buffer.len() == old(self)@.record_buffer.len(),
                self@ == (LooperView {
                    record_buffer: self@.record_buffer,
                    record_buffer_pos: pos0 + j,
                    ..old(self)@
                }),
                forall|i: int|
                    0 <= i < rx@.len() ==> -SAMPLE_BOUND <= #[trigger] rx@[i] <= SAMPLE_BOUND,
                !old(self)@.filter_is_active ==> forall|t: int|
                    0 <= t < j ==> #[trigger] self@.record_buffer[pos0 + t] == rx@[t],
                forall|t: int|
                    0 <= t < j ==> -SAMPLE_BOUND <= #[trigger] self@.record_buffer[pos0 + t]
                        <= SAMPLE_BOUND,
                forall|i: int|
                    0 <= i < self@.record_buffer.len() && !(pos0 <= i < pos0 + j)
                        ==> #[trigger] self@.record_buffer[i] == old(self)@.record_buffer[i],
                old(self)@.filter_is_active ==> self.filter_history() == old(
                    self,
                ).filter_history() + Seq::new(
                    j as nat,
                    |t: int|
                        (FilterCall {
                            reference: old(self)@.tx_prev[t],
                            input: rx@[t],
                            output: self@.record_buffer[pos0 + t],
                        }),
                ),
                !old(self)@.filter_is_active ==> self.filter_history() == old(
                    self,
                ).filter_history(),
            decreases n - j,
        {
            let x = rx[j];
            let value = if self.filter_is_active {
                let reference = self.tx_prev[j];
                self.filter.update(reference, x)
            } else {
                x
            };
            self.record_buffer.write_at(self.record_buffer_pos, value);
            self.record_buffer_pos = self.record_buffer_pos + 1;
            j = j + 1;
            proof {
                assert(self@ =~= (LooperView {
                    record_buffer: self@.record_buffer,
                    record_buffer_pos: pos0 + j,
                    ..old(self)@
                }));
                if old(self)@.filter_is_active {
                    assert(self.filter_history() =~= old(self).filter_history() + Seq::new(
                        j as nat,
                        |t: int|
                            (FilterCall {
                                reference: old(self)@.tx_prev[t],
                                input: rx@[t],
                                output: self@.record_buffer[pos0 + t],
                            }),
                    ));
                }
            }
        }
        proof {
            assert(j as int == record_take(old(self)@, n as int));
            lemma_push_bounded(self@.out_msgs, self@.out_msg_capacity, AppMessage::Led2Off);
            assert forall|i: int|
                0 <= i < self@.record_buffer.len() implies -SAMPLE_BOUND
                <= #[trigger] self@.record_buffer[i] <= SAMPLE_BOUND by {
                if pos0 <= i < pos0 + j {
                    let t = i - pos0;
                    assert(-SAMPLE_BOUND <= self@.record_buffer[pos0 + t] <= SAMPLE_BOUND);
                }
            }
        }
        if self.record_buffer_pos == capacity {
            self.stop_recording();
        }
    }

    /// Stage three: overwrites the previous-output cache with the frame just
    /// produced, for the next frame's filter reference.
    fn store_tx_cache(&mut self, tx: &Vec<i64>)
        requires
            looper_wf(old(self)@),
            tx@.len() <= old(self)@.tx_prev.len(),
            forall|i: int|
                0 <= i < tx@.len() ==> -CACHE_BOUND <= #[trigger] tx@[i] <= CACHE_BOUND,
        ensures
            final(self)@ == (LooperView {
                tx_prev: spec_overwrite_prefix(old(self)@.tx_prev, tx@),
                ..old(self)@
            }),
            looper_wf(final(self)@),
            final(self).filter_history() == old(self).filter_history(),
    {
        let n = tx.len();
        let mut i: usize = 0;
        while i < n
            invariant
                i <= n,
                n == tx@.len(),
                looper_wf(old(self)@),
                n <= old(self)@.tx_prev.len(),
                forall|j: int|
                    0 <= j < tx@.len() ==> -CACHE_BOUND <= #[trigger] tx@[j] <= CACHE_BOUND,
                self@.tx_prev.len() == old(self)@.tx_prev.len(),
                forall|j: int| 0 <= j < i ==> #[trigger] self@.tx_prev[j] == tx@[j],
                forall|j: int|
                    i <= j < self@.tx_prev.len() ==> #[trigger] self@.tx_prev[j] == old(self)@.tx_prev[j],
                self@ == (LooperView { tx_prev: self@.tx_prev, ..old(self)@ }),
                self.filter_history() == old(self).filter_history(),
            decreases n - i,
        {
            let value = tx[i];
            self.tx_prev.set(i, value);
            i = i + 1;
            proof {
                assert(self@ =~= (LooperView { tx_prev: self@.tx_prev, ..old(self)@ }));
            }
        }
        proof {
            assert(self@.tx_prev =~= spec_overwrite_prefix(old(self)@.tx_prev, tx@));
            assert(self@ =~= (LooperView {
                tx_prev: spec_overwrite_prefix(old(self)@.tx_prev, tx@),
                ..old(self)@
            }));
        }
    }

    /// Processes one audio frame, in the fixed order the design demands:
    /// first the optional oscillator mix into the output, then the
    /// recording-state behavior (record the input or play the loop back),
    /// and finally the previous-output cache update. The frame must be
    /// strictly shorter than the hard maximum frame size.
    pub fn process(&mut self, rx: &Vec<i64>, tx: &mut Vec<i64>)
        requires
            looper_wf(old(self)@),
            rx@.len() == old(tx)@.len(),
            old(tx)@.len() < MAX_TX_BUFFER_SIZE,
            forall|i: int|
                0 <= i < rx@.len() ==> -SAMPLE_BOUND <= #[trigger] rx@[i] <= SAMPLE_BOUND,
            forall|i: int|
                0 <= i < old(tx)@.len() ==> -SAMPLE_BOUND <= #[trigger] old(tx)@[i]
                    <= SAMPLE_BOUND,
        ensures
            looper_wf(final(self)@),
            final(tx)@.len() == old(tx)@.len(),
            forall|i: int|
                0 <= i < final(tx)@.len() ==> #[trigger] final(tx)@[i] == spec_output_tx(
                    old(self)@,
                    old(tx)@,
                )[i],
            final(self)@.pitch_lfo == spec_oscs_after(old(self)@, final(tx)@.len() as nat).0,
            final(self)@.tone_osc == spec_oscs_after(old(self)@, final(tx)@.len() as nat).1,
            final(self)@.oscillator_enabled == old(self)@.oscillator_enabled,
            final(self)@.filter_is_active == old(self)@.filter_is_active,
            final(self)@.out_msg_capacity == old(self)@.out_msg_capacity,
            final(self)@.record_buffer.len() == old(self)@.record_buffer.len(),
            final(self)@.tx_prev == spec_overwrite_prefix(old(self)@.tx_prev, final(tx)@),
            old(self)@.recording_state == RecordingState::Idle ==> final(self)@.recording_state
                == RecordingState::Idle && final(self)@.record_buffer == old(self)@.record_buffer
                && final(self)@.record_buffer_pos == old(self)@.record_buffer_pos && final(self)@.out_msgs == old(self)@.out_msgs,
            old(self)@.recording_state == RecordingState::Playing ==> final(self)@.recording_state == RecordingState::Playing && final(self)@.record_buffer == old(self)@.record_buffer && final(self)@.record_buffer_pos == (old(self)@.record_buffer_pos
                + old(tx)@.len()) % (old(self)@.record_buffer.len() as int) && final(self)@.out_msgs == old(self)@.out_msgs,
            old(self)@.recording_state == RecordingState::Recording ==> ({
                let take = record_take(old(self)@, rx@.len() as int);
                let pos = old(self)@.record_buffer_pos;
                let cap = old(self)@.record_buffer.len() as int;
                &&& final(self)@.record_buffer_pos == pos + take
                &&& (!old(self)@.filter_is_active ==> forall|j: int|
                    0 <= j < take ==> #[trigger] final(self)@.record_buffer[pos + j] == rx@[j])
                &&& (forall|j: int|
                    0 <= j < take ==> -SAMPLE_BOUND <= #[trigger] final(self)@.record_buffer[pos
                        + j] <= SAMPLE_BOUND)
                &&& (forall|i: int|
                    0 <= i < cap && !(pos <= i < pos + take)
                        ==> #[trigger] final(self)@.record_buffer[i] == old(self)@.record_buffer[i])
                &&& (pos + take == cap ==> final(self)@.recording_state == RecordingState::Idle
                    && final(self)@.out_msgs == spec_push(
                    old(self)@.out_msgs,
                    old(self)@.out_msg_capacity,
                    AppMessage::Led2Off,
                ))
                &&& (pos + take < cap ==> final(self)@.recording_state
                    == RecordingState::Recording && final(self)@.out_msgs == old(self)@.out_msgs)
            }),
            old(self)@.recording_state == RecordingState::Recording && old(self)@.filter_is_active
                ==> final(self).filter_history() == old(self).filter_history() + Seq::new(
                record_take(old(self)@, rx@.len() as int) as nat,
                |j: int|
                    (FilterCall {
                        reference: old(self)@.tx_prev[j],
                        input: rx@[j],
                        output: final(self)@.record_buffer[old(self)@.record_buffer_pos + j],
                    }),
            ),
            !(old(self)@.recording_state == RecordingState::Recording
                && old(self)@.filter_is_active) ==> final(self).filter_history() == old(
                self,
            ).filter_history(),
    {
        let ghost v0 = self@;
        let ghost tx0 = tx@;
        if self.oscillator_enabled {
            self.mix_oscillators(tx);
        }
        proof {
            assert(forall|i: int|
                0 <= i < tx@.len() ==> #[trigger] tx@[i] == spec_mixed_tx(v0, tx0)[i]);
        }
        match self.recording_state {
            RecordingState::Idle => {},
            RecordingState::Playing => {
                self.play_samples(tx);
            },
            RecordingState::Recording => {
                self.record_samples(rx);
            },
        }
        proof {
            assert(forall|i: int|
                0 <= i < tx@.len() ==> #[trigger] tx@[i] == spec_output_tx(v0, tx0)[i]);
        }
        self.store_tx_cache(tx);
        proof {
            if v0.recording_state == RecordingState::Recording && v0.filter_is_active {
                assert(self.filter_history() =~= old(self).filter_history() + Seq::new(
                    record_take(v0, rx@.len() as int) as nat,
                    |j: int|
                        (FilterCall {
                            reference: v0.tx_prev[j],
                            input: rx@[j],
                            output: self@.record_buffer[v0.record_buffer_pos + j],
                        }),
                ));
            }
        }
    }
}

} // verus!
