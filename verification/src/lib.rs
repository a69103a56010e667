//! Runtime core of a small embedded audio-effects demo.
//!
//! The crate turns a stream of input audio samples plus discrete button
//! events into a stream of output audio samples plus discrete LED events.
//! Audio samples and frequencies are carried as fixed-point integers so that
//! every state transition, buffer access and event emission is verified; the
//! floating-point DSP collaborators (pitch detector, novelty detector,
//! adaptive filter) are reached through thin unverified adapters that hand
//! this core plain values.

use vstd::prelude::*;

pub mod buffer;
pub mod filtering;
pub mod looper;
pub mod mpm_demo;
pub mod oscillator;
pub mod queue;
pub mod sample;
pub mod sfnov_demo;

pub use looper::NlmsDemoApp;
pub use mpm_demo::MpmDemoApp;
pub use sfnov_demo::SfnovDemoApp;

verus! {

/// A single byte-sized message code from a closed enumeration.
///
/// Delivered to the core it is an input event (button down/up for four
/// logical buttons); produced by the core it is an output event (LED on/off
/// for four logical LEDs). The byte encoding is given by [`AppMessage::to_byte`]:
/// 1-8 are the button codes (down on odd offsets, up on even offsets),
/// 9-16 are the LED codes (on for 9-12, off for 13-16), and 0 is reserved as
/// the "no event" sentinel of the native boundary.
#[derive(Clone, Copy, Debug, PartialEq, Eq, Structural)]
pub enum AppMessage {
    Button0Down,
    Button0Up,
    Button1Down,
    Button1Up,
    Button2Down,
    Button2Up,
    Button3Down,
    Button3Up,
    Led0On,
    Led1On,
    Led2On,
    Led3On,
    Led0Off,
    Led1Off,
    Led2Off,
    Led3Off,
}

/// The byte code of a message, as sent over the native boundary.
pub open spec fn spec_message_byte(m: AppMessage) -> u8 {
    match m {
        AppMessage::Button0Down => 1,
        AppMessage::Button0Up => 2,
        AppMessage::Button1Down => 3,
        AppMessage::Button1Up => 4,
        AppMessage::Button2Down => 5,
        AppMessage::Button2Up => 6,
        AppMessage::Button3Down => 7,
        AppMessage::Button3Up => 8,
        AppMessage::Led0On => 9,
        AppMessage::Led1On => 10,
        AppMessage::Led2On => 11,
        AppMessage::Led3On => 12,
        AppMessage::Led0Off => 13,
        AppMessage::Led1Off => 14,
        AppMessage::Led2Off => 15,
        AppMessage::Led3Off => 16,
    }
}

impl AppMessage {
    /// Encodes the message as its boundary byte code, in 1..=16.
    pub fn to_byte(self) -> (r: u8)
        ensures
            r == spec_message_byte(self),
            1 <= r <= 16,
    {
        match self {
            AppMessage::Button0Down => 1,
            AppMessage::Button0Up => 2,
            AppMessage::Button1Down => 3,
            AppMessage::Button1Up => 4,
            AppMessage::Button2Down => 5,
            AppMessage::Button2Up => 6,
            AppMessage::Button3Down => 7,
            AppMessage::Button3Up => 8,
            AppMessage::Led0On => 9,
            AppMessage::Led1On => 10,
            AppMessage::Led2On => 11,
            AppMessage::Led3On => 12,
            AppMessage::Led0Off => 13,
            AppMessage::Led1Off => 14,
            AppMessage::Led2Off => 15,
            AppMessage::Led3Off => 16,
        }
    }

    /// Decodes a boundary byte: `Some` exactly on the codes 1..=16, and the
    /// decoded message encodes back to the given byte.
    pub fn from_byte(code: u8) -> (r: Option<AppMessage>)
        ensures
            r is Some <==> 1 <= code <= 16,
            r is Some ==> spec_message_byte(r->0) == code,
    {
        match code {
            1 => Some(AppMessage::Button0Down),
            2 => Some(AppMessage::Button0Up),
            3 => Some(AppMessage::Button1Down),
            4 => Some(AppMessage::Button1Up),
            5 => Some(AppMessage::Button2Down),
            6 => Some(AppMessage::Button2Up),
            7 => Some(AppMessage::Button3Down),
            8 => Some(AppMessage::Button3Up),
            9 => Some(AppMessage::Led0On),
            10 => Some(AppMessage::Led1On),
            11 => Some(AppMessage::Led2On),
            12 => Some(AppMessage::Led3On),
            13 => Some(AppMessage::Led0Off),
            14 => Some(AppMessage::Led1Off),
            15 => Some(AppMessage::Led2Off),
            16 => Some(AppMessage::Led3Off),
            _ => None,
        }
    }
}

/// Whether a message is an outgoing LED event (byte codes 9 to 16). Only
/// these ever enter an outgoing-event outbox: the two sub-ranges of the
/// encoding never mix directions.
pub open spec fn spec_is_led_event(m: AppMessage) -> bool {
    9 <= spec_message_byte(m) <= 16
}

/// Marker for the process-wide C allocator of the embedded build.
///
/// The actual `GlobalAlloc` wiring is process-wide initialization with no
/// bearing on the core's behavioral contract; it lives with the native glue
/// outside this verified core.
pub struct CAllocator;

/// Allocation-failure hook of the embedded build. Running out of memory is a
/// fatal fault in a supervisor-less deployment: nothing is recovered and the
/// core has no further action to take, so this hook changes nothing and the
/// native glue that installs it parks the processor right after the call.
pub fn alloc_error() {
}

} // verus!
