//! Counter that returns unique device identifiers.
//!
//! The counter hands out 24-bit values and wraps around, always restarting
//! at one, so an identifier is never zero. All state of this backend lives
//! on the single event-loop thread, so the counter is owned and advanced
//! through a mutable reference.

use vstd::prelude::*;

verus! {

/// The identifier space: values wrap after this many.
pub const ID_WRAP: u32 = 0x100_0000;

/// Counter that returns unique IDs, wrapping at 24 bits and always
/// restarting at one.
pub struct IdCounter {
    pub value: u32,
}

impl IdCounter {
    pub open spec fn wf(self) -> bool {
        1 <= self.value <= ID_WRAP
    }

    pub fn new() -> (r: Self)
        ensures
            r.value == 1,
            r.wf(),
    {
        IdCounter { value: 1 }
    }

    /// The next identifier: the current value, or one again once the 24-bit
    /// space is exhausted. Never returns zero.
    pub fn next(&mut self) -> (r: u32)
        requires
            old(self).wf(),
        ensures
            final(self).wf(),
            r == spec_next_id(old(self).value),
            final(self).value == spec_next_state(old(self).value),
            1 <= r < ID_WRAP,
    {
        if self.value < ID_WRAP {
            let v = self.value;
            self.value = v + 1;
            v
        } else {
            self.value = 2;
            1
        }
    }
}

pub open spec fn spec_next_id(value: u32) -> u32 {
    if value < ID_WRAP {
        value
    } else {
        1
    }
}

pub open spec fn spec_next_state(value: u32) -> u32 {
    if value < ID_WRAP {
        (value + 1) as u32
    } else {
        2
    }
}

impl Default for IdCounter {
    fn default() -> (r: Self)
        ensures
            r.value == 1,
            r.wf(),
    {
        IdCounter::new()
    }
}

} // verus!
