//! The audible alert.

use super::name::same_name;
use super::pulse::Pace;
use super::output::{no_values, std_blink, std_set, std_update, OutBase, Output};
use vstd::prelude::*;

verus! {

/// Number of buzzer lines.
pub const BUZZER_COUNT: usize = 1;

/// The buzzer: a single line, `ALERT`, on slot 0.
#[derive(Debug)]
pub struct Buzzer {
    pub base: Output<BUZZER_COUNT>,
}

impl Buzzer {
    /// Resolves a line name to its slot.
    pub fn index(id: &str) -> (slot: Option<usize>)
        ensures
            slot == <Buzzer as OutBase<BUZZER_COUNT>>::slot_of(id@),
            slot matches Some(i) ==> i < BUZZER_COUNT,
    {
        if same_name(id, "ALERT") {
            Some(0)
        } else {
            None
        }
    }
}

impl OutBase<BUZZER_COUNT> for Buzzer {
    const PINS: [u32; BUZZER_COUNT] = [22];

    const ID: &'static str = "buzzer";

    open spec fn base(&self) -> Output<BUZZER_COUNT> {
        self.base
    }

    open spec fn slot_of(id: Seq<char>) -> Option<usize> {
        if id == "ALERT"@ {
            Some(0usize)
        } else {
            None
        }
    }

    fn update(&mut self, counter: &u32) -> (values: [Option<bool>; BUZZER_COUNT]) {
        std_update(&mut self.base, counter)
    }

    fn blink(&mut self, id: &str, duration: u8, pace: Pace) {
        match Buzzer::index(id) {
            Some(slot) => std_blink(&mut self.base, slot, duration, pace),
            None => {},
        }
    }

    fn set(&mut self, id: &str, status: bool) -> (selection: [Option<bool>; BUZZER_COUNT]) {
        match Buzzer::index(id) {
            Some(slot) => std_set(&mut self.base, slot, status),
            None => no_values(),
        }
    }
}

} // verus!
