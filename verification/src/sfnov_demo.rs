//! Novelty-trigger demo core: a debounced, edge-triggered LED.
//!
//! The spectral-flux novelty detection itself is an external collaborator
//! that runs outside this core and hands in one scalar novelty score per
//! analysis step (here in micro-units, so the fixed threshold 0.005 is
//! 5000). [`SfnovDemoApp::handle_novelty`] toggles a single LED when the
//! score exceeds the threshold while the trigger is armed, then disarms the
//! trigger until the score has dropped back below the threshold. The demo
//! produces no audio output.

use vstd::prelude::*;
use crate::{spec_is_led_event, AppMessage};
use crate::queue::{lemma_push_bounded, spec_push, OutgoingEventQueue};

verus! {

/// The novelty threshold in micro-units (0.005).
pub const DETECTION_THRESHOLD_MICRO: i64 = 5000;

/// Capacity of the outgoing-event outbox.
pub const SFNOV_OUT_MSG_BUFFER_SIZE: usize = 16;

/// The mathematical state of the novelty-trigger demo.
#[verifier::ext_equal]
pub struct SfnovView {
    pub should_trigger: bool,
    pub led_state: bool,
    pub out_msgs: Seq<AppMessage>,
    pub out_msg_capacity: int,
}

/// Well-formedness: the outbox stays within its capacity.
pub open spec fn sfnov_wf(v: SfnovView) -> bool {
    &&& v.out_msgs.len() <= v.out_msg_capacity
    &&& (forall|i: int| 0 <= i < v.out_msgs.len() ==> spec_is_led_event(#[trigger] v.out_msgs[i]))
}

/// The reaction to one novelty score: above the threshold with the trigger
/// armed, the LED toggles, its event is emitted and the trigger disarms; at
/// or below the threshold the trigger rearms; anything else changes nothing.
pub open spec fn spec_handle_novelty(v: SfnovView, novelty_micro: int) -> SfnovView {
    if novelty_micro > DETECTION_THRESHOLD_MICRO {
        if v.should_trigger {
            let led = !v.led_state;
            SfnovView {
                led_state: led,
                should_trigger: false,
                out_msgs: spec_push(
                    v.out_msgs,
                    v.out_msg_capacity,
                    if led {
                        AppMessage::Led0On
                    } else {
                        AppMessage::Led0Off
                    },
                ),
                ..v
            }
        } else {
            v
        }
    } else {
        SfnovView { should_trigger: true, ..v }
    }
}

/// Two consecutive scores above the threshold emit at most one event: the
/// second changes nothing, whatever the scores are.
pub proof fn lemma_novelty_debounced(v: SfnovView, first_micro: int, second_micro: int)
    requires
        first_micro > DETECTION_THRESHOLD_MICRO,
        second_micro > DETECTION_THRESHOLD_MICRO,
    ensures
        spec_handle_novelty(spec_handle_novelty(v, first_micro), second_micro)
            == spec_handle_novelty(v, first_micro),
{
}

/// The novelty-trigger demo: trigger arm flag, LED state and the event
/// outbox; the external detector stays outside this core.
pub struct SfnovDemoApp {
    should_trigger: bool,
    led_state: bool,
    out_msg_buffer: OutgoingEventQueue,
}

impl View for SfnovDemoApp {
    type V = SfnovView;

    closed spec fn view(&self) -> SfnovView {
        SfnovView {
            should_trigger: self.should_trigger,
            led_state: self.led_state,
            out_msgs: self.out_msg_buffer@,
            out_msg_capacity: self.out_msg_buffer.spec_capacity(),
        }
    }
}

impl SfnovDemoApp {
    /// A fresh demo: trigger armed, LED off, empty outbox.
    pub fn new() -> (r: Self)
        ensures
            sfnov_wf(r@),
            r@.should_trigger,
            !r@.led_state,
            r@.out_msgs == Seq::<AppMessage>::empty(),
            r@.out_msg_capacity == SFNOV_OUT_MSG_BUFFER_SIZE as int,
    {
        SfnovDemoApp {
            should_trigger: true,
            led_state: false,
            out_msg_buffer: OutgoingEventQueue::new(SFNOV_OUT_MSG_BUFFER_SIZE),
        }
    }

    /// Reacts to one novelty score of the external detector, exactly as
    /// [`spec_handle_novelty`] says.
    pub fn handle_novelty(&mut self, novelty_micro: i64)
        ensures
            final(self)@ == spec_handle_novelty(old(self)@, novelty_micro as int),
            sfnov_wf(old(self)@) ==> sfnov_wf(final(self)@),
    {
        proof {
            if sfnov_wf(self@) {
                lemma_push_bounded(self@.out_msgs, self@.out_msg_capacity, AppMessage::Led0On);
                lemma_push_bounded(self@.out_msgs, self@.out_msg_capacity, AppMessage::Led0Off);
            }
        }
        if novelty_micro > DETECTION_THRESHOLD_MICRO {
            if self.should_trigger {
                self.led_state = !self.led_state;
                let message = if self.led_state {
                    AppMessage::Led0On
                } else {
                    AppMessage::Led0Off
                };
                self.out_msg_buffer.push(message);
                self.should_trigger = false;
            }
        } else {
            self.should_trigger = true;
        }
        proof {
            assert(self@ =~= spec_handle_novelty(old(self)@, novelty_micro as int));
        }
    }

    /// Incoming events do not affect the novelty-trigger demo.
    pub fn handle_message(&mut self, _message: AppMessage)
        ensures
            final(self)@ == old(self)@,
    {
    }

    /// Removes and returns the most recently emitted outgoing event, or
    /// `None` when the outbox is empty.
    pub fn next_outgoing_message(&mut self) -> (r: Option<AppMessage>)
        ensures
            old(self)@.out_msgs.len() == 0 ==> r is None && final(self)@ == old(self)@,
            old(self)@.out_msgs.len() > 0 ==> r == Some(old(self)@.out_msgs.last())
                && final(self)@ == (SfnovView {
                out_msgs: old(self)@.out_msgs.drop_last(),
                ..old(self)@
            }),
            sfnov_wf(old(self)@) ==> sfnov_wf(final(self)@),
            sfnov_wf(old(self)@) && r is Some ==> spec_is_led_event(r->0),
    {
        let r = self.out_msg_buffer.pop();
        proof {
            if old(self)@.out_msgs.len() > 0 {
                assert(self@ =~= (SfnovView {
                    out_msgs: old(self)@.out_msgs.drop_last(),
                    ..old(self)@
                }));
            } else {
                assert(self@ =~= old(self)@);
            }
        }
        r
    }
}

} // verus!
