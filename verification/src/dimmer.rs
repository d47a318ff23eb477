//! The encoder-driven dimmer: it tracks the counter position the hardware
//! pulse counter reports and turns each new reading into the signed change
//! since the last one. Reading the counter is the polling loop's job.

use vstd::prelude::*;

verus! {

/// The dimmer's state: the counter position at the last check.
#[derive(Clone, Copy, Debug)]
pub struct LightDimmer {
    pub last_pos: i32,
}

impl LightDimmer {
    /// A dimmer that starts at counter position zero.
    pub fn new() -> (d: Self)
        ensures
            d.last_pos == 0i32,
    {
        LightDimmer { last_pos: 0 }
    }

    /// The change since the last check, given the counter's new reading;
    /// the reading becomes the new reference point.
    pub fn get_change(&mut self, new_val: i32) -> (change: i32)
        requires
            i32::MIN <= new_val - old(self).last_pos <= i32::MAX,
        ensures
            change == new_val - old(self).last_pos,
            final(self).last_pos == new_val,
    {
        let diff = new_val - self.last_pos;
        self.last_pos = new_val;
        diff
    }
}

} // verus!
