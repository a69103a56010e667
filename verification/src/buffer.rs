//! Fixed-capacity sample store with wraparound cursor arithmetic.
//!
//! The buffer itself is a plain fixed-size store; the record/playback cursor
//! belongs to the state machine that owns the buffer, and advances through
//! [`advance_with_wrap`] while playing.

use vstd::prelude::*;
use vstd::arithmetic::div_mod::lemma_small_mod;
use vstd::arithmetic::div_mod::lemma_mod_self_0;

verus! {

/// Fixed-capacity sample store; no implicit resizing.
pub struct CircularAudioBuffer {
    data: Vec<i64>,
}

impl View for CircularAudioBuffer {
    type V = Seq<i64>;

    closed spec fn view(&self) -> Seq<i64> {
        self.data@
    }
}

impl CircularAudioBuffer {
    /// A zero-filled buffer of the given capacity.
    pub fn new(capacity: usize) -> (r: Self)
        requires
            capacity >= 1,
        ensures
            r@.len() == capacity,
            forall|i: int| 0 <= i < capacity ==> r@[i] == 0i64,
    {
        let data: Vec<i64> = vec![0i64; capacity];
        CircularAudioBuffer { data }
    }

    /// The fixed capacity.
    pub fn capacity(&self) -> (r: usize)
        ensures
            r == self@.len(),
    {
        self.data.len()
    }

    /// The sample at an index.
    pub fn read_at(&self, index: usize) -> (r: i64)
        requires
            index < self@.len(),
        ensures
            r == self@[index as int],
    {
        self.data[index]
    }

    /// Overwrites the sample at an index.
    pub fn write_at(&mut self, index: usize, value: i64)
        requires
            index < old(self)@.len(),
        ensures
            final(self)@ == old(self)@.update(index as int, value),
    {
        self.data.set(index, value);
    }
}

/// Advances a cursor by one, wrapping to 0 exactly at the capacity.
pub fn advance_with_wrap(pos: usize, capacity: usize) -> (r: usize)
    requires
        capacity >= 1,
        pos < capacity,
    ensures
        r as int == (pos + 1) % (capacity as int),
        r < capacity,
{
    if pos + 1 == capacity {
        proof {
            lemma_mod_self_0(capacity as int);
        }
        0
    } else {
        proof {
            lemma_small_mod((pos + 1) as nat, capacity as nat);
        }
        pos + 1
    }
}

} // verus!
