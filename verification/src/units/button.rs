//! The push buttons.

use super::name::same_name;
use vstd::prelude::*;

verus! {

/// Number of buttons.
pub const BUTTON_COUNT: usize = 1;

/// The buttons as last read: `pressed[i]` tells whether the button on slot
/// `i` was held down. There is one button, `QUIT`, on slot 0.
#[derive(Debug)]
pub struct Button {
    pub pressed: [bool; BUTTON_COUNT],
}

impl Button {
    /// The physical lines of the buttons, one per slot.
    pub const PINS: [u32; BUTTON_COUNT] = [23];

    /// The name under which the buttons claim their lines.
    pub const ID: &'static str = "button";

    /// The slot that a button name stands for, if there is such a button.
    pub open spec fn slot_of(id: Seq<char>) -> Option<usize> {
        if id == "QUIT"@ {
            Some(0usize)
        } else {
            None
        }
    }

    /// Resolves a button name to its slot.
    pub fn index(id: &str) -> (slot: Option<usize>)
        ensures
            slot == Button::slot_of(id@),
            slot matches Some(i) ==> i < BUTTON_COUNT,
    {
        if same_name(id, "QUIT") {
            Some(0)
        } else {
            None
        }
    }

    /// The buttons before anything was read: none pressed.
    pub fn init() -> (buttons: Button)
        ensures
            forall|i: int| 0 <= i < BUTTON_COUNT ==> !#[trigger] buttons.pressed[i],
    {
        Button { pressed: [false] }
    }

    /// Whether the named button was pressed when last read; a name that is
    /// no button's reads as released.
    pub fn read(&self, id: &str) -> (pressed: bool)
        ensures
            pressed == (match Button::slot_of(id@) {
                Some(i) => self.pressed[i as int],
                None => false,
            }),
    {
        match Button::index(id) {
            Some(slot) => self.pressed[slot],
            None => false,
        }
    }
}

} // verus!
