//! The indicator lights.

use super::name::same_name;
use super::pulse::Pace;
use super::output::{no_values, std_blink, std_set, std_update, OutBase, Output};
use vstd::prelude::*;

verus! {

/// Number of indicator lights.
pub const LED_COUNT: usize = 2;

/// The indicator lights: `POWER` on slot 0 and `STATUS` on slot 1.
#[derive(Debug)]
pub struct Led {
    pub base: Output<LED_COUNT>,
}

impl Led {
    /// Resolves a line name to its slot.
    pub fn index(id: &str) -> (slot: Option<usize>)
        ensures
            slot == <Led as OutBase<LED_COUNT>>::slot_of(id@),
            slot matches Some(i) ==> i < LED_COUNT,
    {
        if same_name(id, "POWER") {
            Some(0)
        } else if same_name(id, "STATUS") {
            Some(1)
        } else {
            None
        }
    }
}

impl OutBase<LED_COUNT> for Led {
    const PINS: [u32; LED_COUNT] = [17, 27];

    const ID: &'static str = "led";

    open spec fn base(&self) -> Output<LED_COUNT> {
        self.base
    }

    open spec fn slot_of(id: Seq<char>) -> Option<usize> {
        if id == "POWER"@ {
            Some(0usize)
        } else if id == "STATUS"@ {
            Some(1usize)
        } else {
            None
        }
    }

    fn update(&mut self, counter: &u32) -> (values: [Option<bool>; LED_COUNT]) {
        std_update(&mut self.base, counter)
    }

    fn blink(&mut self, id: &str, duration: u8, pace: Pace) {
        match Led::index(id) {
            Some(slot) => std_blink(&mut self.base, slot, duration, pace),
            None => {},
        }
    }

    fn set(&mut self, id: &str, status: bool) -> (selection: [Option<bool>; LED_COUNT]) {
        match Led::index(id) {
            Some(slot) => std_set(&mut self.base, slot, status),
            None => no_values(),
        }
    }
}

} // verus!
