//! The blink state of one output line, and how one tick changes it.

use crate::counter::next_tick;
use vstd::prelude::*;

verus! {

/// Ticks between two toggles of a blinking line.
pub type Pace = u32;

/// What remains of a blink pattern on one line.
#[derive(Clone, Copy, Debug, PartialEq, Eq, Structural)]
pub struct Pulse {
    /// Toggles still to come; `0` means the line is steady.
    pub count: u8,
    /// Ticks between two toggles.
    pub pace: Pace,
}

impl Default for Pulse {
    fn default() -> (pulse: Pulse)
        ensures
            pulse == (Pulse { count: 0, pace: 0 }),
    {
        Pulse { count: 0, pace: 0 }
    }
}

impl Pulse {
    /// The level a line takes when it fires with this pulse: on for an odd
    /// count of remaining toggles, off for an even one.
    pub open spec fn level(self) -> bool {
        self.count % 2 == 1
    }

    /// The pulse after one firing: one toggle fewer, never below zero.
    pub open spec fn spent(self) -> Pulse {
        Pulse { count: if self.count == 0 { 0u8 } else { (self.count - 1) as u8 }, pace: self.pace }
    }

    /// The wake tick that a firing at `tick` leaves behind: `pace` ticks on
    /// while toggles remain, and `0` once the line is steady.
    pub open spec fn wake_after(self, tick: u32) -> u32 {
        if self.count == 0 { 0u32 } else { next_tick(tick, self.pace) }
    }

    /// The pulse that a blink request of `duration` cycles installs: two
    /// toggles per cycle at the given pace.
    pub open spec fn blinking(duration: u8, pace: Pace) -> Pulse {
        Pulse { count: (2 * duration) as u8, pace }
    }
}

/// One line of a bank as the scheduler sees it: the tick at which it is due
/// and its pulse.
pub struct Slot {
    pub sleep: u32,
    pub pulse: Pulse,
}

impl Slot {
    /// A line fires on exactly the tick it sleeps until.
    pub open spec fn due(self, tick: u32) -> bool {
        tick == self.sleep
    }

    /// The level this tick writes to the line, if any.
    pub open spec fn emit(self, tick: u32) -> Option<bool> {
        if self.due(tick) { Some(self.pulse.level()) } else { None }
    }

    /// The line after `tick`: untouched unless due, else rescheduled with one
    /// toggle spent.
    pub open spec fn step(self, tick: u32) -> Slot {
        if self.due(tick) {
            Slot { sleep: self.pulse.wake_after(tick), pulse: self.pulse.spent() }
        } else {
            self
        }
    }

    /// The line after a blink request: a fresh pulse, the wake tick as it was.
    pub open spec fn blink(self, duration: u8, pace: Pace) -> Slot {
        Slot { sleep: self.sleep, pulse: Pulse::blinking(duration, pace) }
    }
}

} // verus!
