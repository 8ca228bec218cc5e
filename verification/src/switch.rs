//! Debounced push-button input.
//!
//! The button raises an interrupt on every falling edge, and a bouncing
//! contact raises several. The caller reads and clears the pending flag of
//! the interrupt line and hands it in; what counts as a press is decided here.

use vstd::prelude::*;

verus! {

/// Number of ticks after an edge during which a further edge is no press.
pub const DEBOUNCE_TICKS: u32 = 3;

/// Whether an edge at tick `now` is a press, when the edge before it came at
/// tick `last_event`: it is one when more than `DEBOUNCE_TICKS` lie between.
pub open spec fn press_accepted(last_event: u32, now: u32) -> bool {
    now > last_event + DEBOUNCE_TICKS
}

/// Debounce state of the user push-button.
pub struct SwitchState {
    last_event: u32,
}

impl View for SwitchState {
    type V = u32;

    /// Tick of the last edge that was taken from the interrupt line.
    closed spec fn view(&self) -> u32 {
        self.last_event
    }
}

impl SwitchState {
    /// A button on which no edge has been seen; the window of an edge at tick
    /// 0 is open, as after any other edge.
    pub fn new() -> (s: Self)
        ensures
            s@ == 0,
    {
        SwitchState { last_event: 0 }
    }

    /// Tick of the last edge that was taken from the interrupt line.
    pub fn last_event(&self) -> (t: u32)
        ensures
            t == self@,
    {
        self.last_event
    }

    /// Takes a pending edge, if there is one, and says whether it is a press.
    /// Every edge taken restarts the window, a bounce too. Without a pending
    /// edge nothing changes and there is no press.
    pub fn was_toggled(&mut self, now: u32, pending: bool) -> (toggled: bool)
        ensures
            toggled == (pending && press_accepted(old(self)@, now)),
            final(self)@ == if pending {
                now
            } else {
                old(self)@
            },
    {
        if pending {
            let toggled = now as u64 > self.last_event as u64 + DEBOUNCE_TICKS as u64;
            self.last_event = now;
            toggled
        } else {
            false
        }
    }
}

/// Debounce. Take a press at tick `first`, so that `first` is the last edge on
/// record, and an edge at tick `second`, not before it. Fewer than 3 ticks
/// (300 ms) later the second edge is no press: the two make one toggle. 4
/// ticks (400 ms) or more later it is a press: the two make two toggles.
pub proof fn lemma_debounce(last_event: u32, first: u32, second: u32)
    requires
        press_accepted(last_event, first),
        first <= second,
    ensures
        second - first < 3 ==> !press_accepted(first, second),
        second - first >= 4 ==> press_accepted(first, second),
{
}

} // verus!
