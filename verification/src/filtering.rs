//! Integration point for the external adaptive filter.
//!
//! The coefficient-update math lives outside this core; the state machine
//! only needs a contract at the boundary: an update consumes one
//! (reference, input) pair and yields one bounded output sample, and a reset
//! clears the adapted state. So that callers can state which samples they
//! obtained from the filter and in which order, every filter keeps a ghost
//! [`history`](AdaptiveFilter::history) of the calls it has answered since
//! its last reset. The native build plugs the external filter in through
//! this trait; [`PassthroughFilter`] is the core's own, fully verified
//! instance.

use vstd::prelude::*;
use crate::sample::{CACHE_BOUND, SAMPLE_BOUND};

verus! {

/// One answered call of an adaptive filter: the reference and input samples
/// handed in, and the output sample returned.
pub struct FilterCall {
    pub reference: i64,
    pub input: i64,
    pub output: i64,
}

/// One step of an adaptive filter: `update` consumes a reference sample (the
/// previously produced output at the same frame position) and the current
/// input sample, and yields the filtered sample to record; `reset` clears
/// the adapted coefficients.
pub trait AdaptiveFilter {
    /// The calls the filter has answered since it was last reset, oldest
    /// first: a ghost record that lets callers state exactly which samples
    /// they obtained from the filter, and in which order. The core's own
    /// filters track it in a ghost field; an external filter reached through
    /// unverified glue has no ghost state and keeps the default.
    open spec fn history(&self) -> Seq<FilterCall> {
        Seq::empty()
    }

    /// Filters one input sample against one reference sample. The result is
    /// whatever the filter computes, but it must stay inside the core's
    /// sample bound so that recorded samples can later be mixed safely, and
    /// the call is appended to the history.
    fn update(&mut self, reference: i64, input: i64) -> (r: i64)
        requires
            -CACHE_BOUND <= reference <= CACHE_BOUND,
            -SAMPLE_BOUND <= input <= SAMPLE_BOUND,
        ensures
            -SAMPLE_BOUND <= r <= SAMPLE_BOUND,
            final(self).history() == old(self).history().push(
                (FilterCall { reference, input, output: r }),
            ),
    ;

    /// Clears the adapted filter state, and with it the call history.
    fn reset(&mut self)
        ensures
            final(self).history() == Seq::<FilterCall>::empty(),
    ;
}

/// The identity filter: records the input unchanged. It gives the filtered
/// recording path a verified in-core instance.
pub struct PassthroughFilter {
    calls: Ghost<Seq<FilterCall>>,
}

impl PassthroughFilter {
    /// A fresh identity filter with an empty history.
    pub fn new() -> (r: Self)
        ensures
            r.history() == Seq::<FilterCall>::empty(),
    {
        PassthroughFilter { calls: Ghost(Seq::empty()) }
    }
}

impl AdaptiveFilter for PassthroughFilter {
    closed spec fn history(&self) -> Seq<FilterCall> {
        self.calls@
    }

    fn update(&mut self, reference: i64, input: i64) -> (r: i64) {
        self.calls = Ghost(
            self.calls@.push(FilterCall { reference, input, output: input }),
        );
        input
    }

    fn reset(&mut self) {
        self.calls = Ghost(Seq::empty());
    }
}

} // verus!
