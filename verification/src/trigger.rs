//! What sets the devices off: the tick itself, and commands from the user.

use crate::units::{Button, Buzzer, Led, OutBase, LED_COUNT};
use vstd::prelude::*;

verus! {

/// The key a command is dispatched on: the shift latch as the tens digit,
/// the command code added to it.
pub open spec fn status_of(shift: bool, cmd: u16) -> int {
    10 * (if shift { 1int } else { 0int }) + cmd
}

/// The shift latch after a command: key `10` clears it, key `11` sets it,
/// every other key leaves it alone.
pub open spec fn shift_after(shift: bool, cmd: u16) -> bool {
    if status_of(shift, cmd) == 10 {
        false
    } else if status_of(shift, cmd) == 11 {
        true
    } else {
        shift
    }
}

/// Which commands reach the two keys, and which of them move the latch:
/// only command `0` under shift clears it, only command `11` without shift
/// sets it.
pub proof fn lemma_latch_keys(shift: bool, cmd: u16)
    ensures
        status_of(shift, cmd) == 10 <==> (shift && cmd == 0) || (!shift && cmd == 10),
        status_of(shift, cmd) == 11 <==> (shift && cmd == 1) || (!shift && cmd == 11),
        status_of(shift, cmd) != 10 && status_of(shift, cmd) != 11 ==> shift_after(shift, cmd) == shift,
        shift_after(shift, cmd) != shift <==> (shift && cmd == 0) || (!shift && cmd == 11),
{
}

/// The work that every tick triggers by itself. On tick `1` the power light
/// is set to `stable`, the health of the power supply as the caller found
/// it; the result is the batch to write to the lights. No other tick
/// triggers anything. The schedules of the devices are never touched.
pub fn auto(counter: &u32, leds: &mut Led, _buzzers: &mut Buzzer, stable: bool) -> (batch: Option<[Option<bool>; LED_COUNT]>)
    ensures
        *final(leds) == *old(leds),
        *final(_buzzers) == *old(_buzzers),
        batch is Some <==> *counter == 1,
        batch matches Some(b) ==> forall|i: int|
            0 <= i < LED_COUNT ==> #[trigger] b[i] == (if Led::slot_of("POWER"@) == Some(i as usize) {
                Some(stable)
            } else {
                None
            }),
{
    if 1 == *counter {
        Some(leds.set("POWER", stable))
    } else {
        None
    }
}

/// Folds one user command into the shift latch.
pub fn call(shift: &mut bool, cmd: u16)
    ensures
        *final(shift) == shift_after(*old(shift), cmd),
{
    let status: u32 = 10 * (if *shift { 1u32 } else { 0u32 }) + cmd as u32;
    match status {
        10 => {
            *shift = false;
        },
        11 => {
            *shift = true;
        },
        _ => {},
    }
}

/// Whether the main loop goes on: it does until `QUIT` is pressed.
pub fn keep_running(buttons: &Button) -> (go_on: bool)
    ensures
        go_on == !buttons.pressed[0],
{
    !buttons.read("QUIT")
}

} // verus!
