//! Per-tick input state: button levels and the frame snapshot published
//! immediately before the waiters of a tick are woken.

use vstd::prelude::*;

verus! {

/// The host-reported button levels for one tick, as bitmasks: the buttons
/// held down during the tick, those that went down this tick, and those
/// that went up this tick.
#[derive(Clone, Copy, PartialEq, Eq, Structural, Debug)]
pub struct ButtonSet {
    pub current: u32,
    pub pressed: u32,
    pub released: u32,
}

impl ButtonSet {
    /// A tick on which nothing is held and nothing changed.
    pub fn idle() -> (r: ButtonSet)
        ensures
            r == (ButtonSet { current: 0, pressed: 0, released: 0 }),
    {
        ButtonSet { current: 0, pressed: 0, released: 0 }
    }
}

/// The immutable bundle of state captured once per tick, before any task
/// code of that tick runs: the frame counter after this tick's increment,
/// the button levels the host reported for this tick, and whether the
/// peripheral sensors are enabled.
///
/// A snapshot is never mutated; the next tick publishes a new one.
#[derive(Clone, Copy, PartialEq, Eq, Structural, Debug)]
pub struct FrameSnapshot {
    pub frame_number: u32,
    pub buttons: ButtonSet,
    pub peripherals_enabled: bool,
}

} // verus!
