//! The key spike's result: does a synthetic keydown reach the app's own
//! handler? A run marks it passed or failed; an unmarked run did not pass.

use vstd::prelude::*;

verus! {

/// The spike's outcome.
#[derive(Debug, Default)]
pub struct KeySpikeTerminal {
    /// Nothing marked yet, passed, or failed.
    state: u8,
}

pub const PASSED: u8 = 1;
pub const FAILED: u8 = 2;

impl KeySpikeTerminal {
    /// What was marked last: `PASSED`, `FAILED`, or 0 for nothing.
    pub closed spec fn state_spec(&self) -> u8 {
        self.state
    }

    pub fn new() -> (t: Self)
        ensures
            t.state_spec() == 0,
    {
        KeySpikeTerminal { state: 0 }
    }

    /// Marks the spike passed or failed.
    pub fn mark(&mut self, passed: bool)
        ensures
            final(self).state_spec() == if passed { PASSED } else { FAILED },
    {
        self.state = if passed { PASSED } else { FAILED };
    }

    /// Whether the spike was marked passed.
    pub fn passed(&self) -> (b: bool)
        ensures
            b == (self.state_spec() == PASSED),
    {
        self.state == PASSED
    }
}

} // verus!
