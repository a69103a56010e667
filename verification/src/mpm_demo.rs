//! Pitch-tracking demo core: per-target tone detection with edge-triggered
//! LED events.
//!
//! The spectral pitch detection itself is an external collaborator that runs
//! outside this core and hands in one result per analysis step: whether a
//! tone is present and at which frequency (here in millihertz).
//! [`MpmDemoApp::handle_detection`] turns each result into LED events: for
//! each of four fixed target frequencies (tolerance below 1 Hz) it keeps an
//! independent "currently sounding" state and emits LED-on on a false-to-true
//! transition and LED-off on a true-to-false transition. The demo produces no
//! audio output.

use vstd::prelude::*;
use crate::{spec_is_led_event, AppMessage};
use crate::queue::{lemma_push_bounded, spec_push, OutgoingEventQueue};

verus! {

/// Number of fixed target frequencies (and LEDs).
pub const FREQUENCY_COUNT: usize = 4;

/// Capacity of the outgoing-event outbox.
pub const MPM_OUT_MSG_BUFFER_SIZE: usize = 32;

/// Tolerance around a target frequency, in millihertz (exclusive).
pub const MAX_FREQ_ERROR_MHZ: i64 = 1000;

/// The four target frequencies in millihertz: ukulele strings A4, E4, C4, G4.
pub open spec fn spec_target_freq_mhz(i: int) -> int {
    if i == 0 {
        440000
    } else if i == 1 {
        330000
    } else if i == 2 {
        262000
    } else {
        392000
    }
}

/// The LED-on event of a target index.
pub open spec fn spec_led_on(i: int) -> AppMessage {
    if i == 0 {
        AppMessage::Led0On
    } else if i == 1 {
        AppMessage::Led1On
    } else if i == 2 {
        AppMessage::Led2On
    } else {
        AppMessage::Led3On
    }
}

/// The LED-off event of a target index.
pub open spec fn spec_led_off(i: int) -> AppMessage {
    if i == 0 {
        AppMessage::Led0Off
    } else if i == 1 {
        AppMessage::Led1Off
    } else if i == 2 {
        AppMessage::Led2Off
    } else {
        AppMessage::Led3Off
    }
}

/// Whether a detection result counts as target `i` sounding: a tone is
/// present and the frequency error is below the tolerance.
pub open spec fn spec_detected(is_tone: bool, freq_mhz: int, i: int) -> bool {
    is_tone && spec_target_freq_mhz(i) - MAX_FREQ_ERROR_MHZ < freq_mhz < spec_target_freq_mhz(i)
        + MAX_FREQ_ERROR_MHZ
}

/// The mathematical state of the pitch-tracking demo.
#[verifier::ext_equal]
pub struct MpmView {
    pub detection_states: Seq<bool>,
    pub out_msgs: Seq<AppMessage>,
    pub out_msg_capacity: int,
}

/// Well-formedness: one sounding flag per target, outbox within capacity.
pub open spec fn mpm_wf(v: MpmView) -> bool {
    &&& v.detection_states.len() == FREQUENCY_COUNT
    &&& v.out_msgs.len() <= v.out_msg_capacity
    &&& (forall|i: int| 0 <= i < v.out_msgs.len() ==> spec_is_led_event(#[trigger] v.out_msgs[i]))
}

/// The state after the targets below `k` reacted to one detection result:
/// each flips its sounding flag to the detection and emits its LED event on
/// either edge, in target order.
pub open spec fn spec_detect_upto(v: MpmView, is_tone: bool, freq_mhz: int, k: nat) -> MpmView
    decreases k,
{
    if k == 0 {
        v
    } else {
        let prev = spec_detect_upto(v, is_tone, freq_mhz, (k - 1) as nat);
        let i = k - 1;
        let det = spec_detected(is_tone, freq_mhz, i);
        let was = prev.detection_states[i];
        let msgs = if !was && det {
            spec_push(prev.out_msgs, prev.out_msg_capacity, spec_led_on(i))
        } else if was && !det {
            spec_push(prev.out_msgs, prev.out_msg_capacity, spec_led_off(i))
        } else {
            prev.out_msgs
        };
        MpmView {
            detection_states: prev.detection_states.update(i, det),
            out_msgs: msgs,
            ..prev
        }
    }
}

/// The reaction of the whole demo to one detection result.
pub open spec fn spec_handle_detection(v: MpmView, is_tone: bool, freq_mhz: int) -> MpmView {
    spec_detect_upto(v, is_tone, freq_mhz, FREQUENCY_COUNT as nat)
}

/// Reacting to a detection result preserves well-formedness.
pub proof fn lemma_detect_upto_wf(v: MpmView, is_tone: bool, freq_mhz: int, k: nat)
    requires
        mpm_wf(v),
        k <= FREQUENCY_COUNT,
    ensures
        mpm_wf(spec_detect_upto(v, is_tone, freq_mhz, k)),
    decreases k,
{
    if k > 0 {
        lemma_detect_upto_wf(v, is_tone, freq_mhz, (k - 1) as nat);
        let prev = spec_detect_upto(v, is_tone, freq_mhz, (k - 1) as nat);
        lemma_push_bounded(prev.out_msgs, prev.out_msg_capacity, spec_led_on(k - 1));
        lemma_push_bounded(prev.out_msgs, prev.out_msg_capacity, spec_led_off(k - 1));
    }
}

/// The pitch-tracking demo: four per-target sounding flags and the event
/// outbox; the external detector stays outside this core.
pub struct MpmDemoApp {
    out_msg_buffer: OutgoingEventQueue,
    detection_states: Vec<bool>,
}

impl View for MpmDemoApp {
    type V = MpmView;

    closed spec fn view(&self) -> MpmView {
        MpmView {
            detection_states: self.detection_states@,
            out_msgs: self.out_msg_buffer@,
            out_msg_capacity: self.out_msg_buffer.spec_capacity(),
        }
    }
}

impl MpmDemoApp {
    /// A fresh demo: nothing sounding, empty outbox.
    pub fn new() -> (r: Self)
        ensures
            mpm_wf(r@),
            r@.detection_states == Seq::new(FREQUENCY_COUNT as nat, |i: int| false),
            r@.out_msgs == Seq::<AppMessage>::empty(),
            r@.out_msg_capacity == MPM_OUT_MSG_BUFFER_SIZE as int,
    {
        let mut detection_states: Vec<bool> = Vec::new();
        detection_states.push(false);
        detection_states.push(false);
        detection_states.push(false);
        detection_states.push(false);
        let r = MpmDemoApp {
            out_msg_buffer: OutgoingEventQueue::new(MPM_OUT_MSG_BUFFER_SIZE),
            detection_states,
        };
        proof {
            assert(r@.detection_states =~= Seq::new(FREQUENCY_COUNT as nat, |i: int| false));
        }
        r
    }

    /// The target frequency of an index, in millihertz.
    pub fn target_frequency_mhz(i: usize) -> (r: i64)
        requires
            i < FREQUENCY_COUNT,
        ensures
            r as int == spec_target_freq_mhz(i as int),
    {
        if i == 0 {
            440000
        } else if i == 1 {
            330000
        } else if i == 2 {
            262000
        } else {
            392000
        }
    }

    /// The LED-on and LED-off events of a target index.
    fn led_messages(i: usize) -> (r: (AppMessage, AppMessage))
        requires
            i < FREQUENCY_COUNT,
        ensures
            r.0 == spec_led_on(i as int),
            r.1 == spec_led_off(i as int),
    {
        if i == 0 {
            (AppMessage::Led0On, AppMessage::Led0Off)
        } else if i == 1 {
            (AppMessage::Led1On, AppMessage::Led1Off)
        } else if i == 2 {
            (AppMessage::Led2On, AppMessage::Led2Off)
        } else {
            (AppMessage::Led3On, AppMessage::Led3Off)
        }
    }

    /// Reacts to one detection result of the external pitch detector: for
    /// each target, an edge of "currently sounding" emits the matching LED
    /// event, exactly as [`spec_handle_detection`] says.
    pub fn handle_detection(&mut self, is_tone: bool, frequency_mhz: i64)
        requires
            mpm_wf(old(self)@),
        ensures
            final(self)@ == spec_handle_detection(old(self)@, is_tone, frequency_mhz as int),
            mpm_wf(final(self)@),
    {
        let ghost v0 = self@;
        let mut i: usize = 0;
        while i < FREQUENCY_COUNT
            invariant
                i <= FREQUENCY_COUNT,
                mpm_wf(v0),
                v0 == old(self)@,
                self@ == spec_detect_upto(v0, is_tone, frequency_mhz as int, i as nat),
                mpm_wf(self@),
            decreases FREQUENCY_COUNT - i,
        {
            proof {
                lemma_detect_upto_wf(v0, is_tone, frequency_mhz as int, i as nat);
                lemma_detect_upto_wf(v0, is_tone, frequency_mhz as int, (i + 1) as nat);
            }
            let target = Self::target_frequency_mhz(i);
            let detected = is_tone && frequency_mhz > target - MAX_FREQ_ERROR_MHZ && frequency_mhz
                < target + MAX_FREQ_ERROR_MHZ;
            let (led_on, led_off) = Self::led_messages(i);
            let was = self.detection_states[i];
            if !was && detected {
                self.out_msg_buffer.push(led_on);
            } else if was && !detected {
                self.out_msg_buffer.push(led_off);
            }
            self.detection_states.set(i, detected);
            i = i + 1;
            proof {
                assert(self@ =~= spec_detect_upto(v0, is_tone, frequency_mhz as int, i as nat));
            }
        }
    }

    /// Incoming events do not affect the pitch-tracking demo.
    pub fn handle_message(&mut self, _message: AppMessage)
        ensures
            final(self)@ == old(self)@,
    {
    }

    /// Removes and returns the most recently emitted outgoing event, or
    /// `None` when the outbox is empty.
    pub fn next_outgoing_message(&mut self) -> (r: Option<AppMessage>)
        ensures
            old(self)@.out_msgs.len() == 0 ==> r is None && final(self)@ == old(self)@,
            old(self)@.out_msgs.len() > 0 ==> r == Some(old(self)@.out_msgs.last())
                && final(self)@ == (MpmView {
                out_msgs: old(self)@.out_msgs.drop_last(),
                ..old(self)@
            }),
            mpm_wf(old(self)@) ==> mpm_wf(final(self)@),
            mpm_wf(old(self)@) && r is Some ==> spec_is_led_event(r->0),
    {
        let r = self.out_msg_buffer.pop();
        proof {
            if old(self)@.out_msgs.len() > 0 {
                assert(self@ =~= (MpmView {
                    out_msgs: old(self)@.out_msgs.drop_last(),
                    ..old(self)@
                }));
            } else {
                assert(self@ =~= old(self)@);
            }
        }
        r
    }
}

} // verus!
