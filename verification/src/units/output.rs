//! The scheduling state common to all output devices, and the standard
//! behaviour of their three operations.

use super::pulse::{Pace, Pulse, Slot};
use crate::counter;
use vstd::prelude::*;

verus! {

/// The scheduling state of a bank of `COUNT` output lines: for each line the
/// tick it sleeps until and its pulse, index-aligned.
#[derive(Debug)]
pub struct Output<const COUNT: usize> {
    pub sleep: [u32; COUNT],
    pub pulse: [Pulse; COUNT],
}

impl<const COUNT: usize> Output<COUNT> {
    /// Line `i` of the bank.
    pub open spec fn slot(self, i: int) -> Slot {
        Slot { sleep: self.sleep[i], pulse: self.pulse[i] }
    }

    /// A bank at rest: every line due at tick `0`, no line blinking.
    pub fn new() -> (unit: Self)
        ensures
            forall|i: int|
                #![trigger unit.sleep[i]]
                #![trigger unit.pulse[i]]
                0 <= i < COUNT ==> unit.sleep[i] == 0 && unit.pulse[i] == (Pulse { count: 0, pace: 0 }),
    {
        let rest: Pulse = Pulse::default();
        let sleep: [u32; COUNT] = [0u32; COUNT];
        let pulse: [Pulse; COUNT] = [rest; COUNT];
        assert(sleep == vstd::array::spec_array_fill_for_copy_type::<u32, COUNT>(0u32));
        assert(pulse == vstd::array::spec_array_fill_for_copy_type::<Pulse, COUNT>(rest));
        Output { sleep, pulse }
    }
}

/// The batch that writes to no line.
pub fn no_values<const COUNT: usize>() -> (values: [Option<bool>; COUNT])
    ensures
        forall|i: int| 0 <= i < COUNT ==> #[trigger] values[i] == None::<bool>,
{
    let values: [Option<bool>; COUNT] = [None; COUNT];
    assert(values == vstd::array::spec_array_fill_for_copy_type::<Option<bool>, COUNT>(None));
    values
}

/// What every output device offers: its lines and its name, a bank at rest
/// to start from, and the three operations, addressed by line name.
pub trait OutBase<const COUNT: usize> {
    /// The physical lines of the device, one per slot.
    const PINS: [u32; COUNT];

    /// The name under which the device claims its lines.
    const ID: &'static str;

    /// The bank of the device.
    spec fn base(&self) -> Output<COUNT>;

    /// The slot that a line name stands for, if the device has such a line.
    spec fn slot_of(id: Seq<char>) -> Option<usize>;

    /// The bank a device starts from.
    fn init() -> (unit: Output<COUNT>)
        ensures
            forall|i: int|
                #![trigger unit.sleep[i]]
                #![trigger unit.pulse[i]]
                0 <= i < COUNT ==> unit.sleep[i] == 0 && unit.pulse[i] == (Pulse { count: 0, pace: 0 }),
    {
        Output::new()
    }

    /// Advances the device by one tick; the result is the batch to write.
    fn update(&mut self, counter: &u32) -> (values: [Option<bool>; COUNT])
        ensures
            forall|i: int| 0 <= i < COUNT ==> #[trigger] values[i] == old(self).base().slot(i).emit(*counter),
            forall|i: int|
                #![trigger final(self).base().sleep[i]]
                #![trigger final(self).base().pulse[i]]
                0 <= i < COUNT ==> final(self).base().slot(i) == old(self).base().slot(i).step(*counter),
    ;

    /// Starts a blink on the named line; a name the device does not know
    /// changes nothing.
    fn blink(&mut self, id: &str, duration: u8, pace: Pace)
        requires
            2 * duration <= u8::MAX,
        ensures
            forall|i: int|
                #![trigger final(self).base().sleep[i]]
                #![trigger final(self).base().pulse[i]]
                0 <= i < COUNT ==> final(self).base().slot(i) == (if Self::slot_of(id@) == Some(i as usize) {
                    old(self).base().slot(i).blink(duration, pace)
                } else {
                    old(self).base().slot(i)
                }),
    ;

    /// Selects the named line alone for a write of `status`; a name the
    /// device does not know selects nothing.
    fn set(&mut self, id: &str, status: bool) -> (selection: [Option<bool>; COUNT])
        ensures
            final(self).base() == old(self).base(),
            forall|i: int| 0 <= i < COUNT ==> #[trigger] selection[i] == (if Self::slot_of(id@) == Some(i as usize) {
                Some(status)
            } else {
                None
            }),
    ;
}

/// Advances every line of the bank by one tick and returns the batch of
/// levels to write: an entry for each line that is due at `counter`, none for
/// the others.
pub fn std_update<const COUNT: usize>(unit: &mut Output<COUNT>, counter: &u32) -> (values: [Option<bool>; COUNT])
    ensures
        forall|i: int| 0 <= i < COUNT ==> #[trigger] values[i] == old(unit).slot(i).emit(*counter),
        forall|i: int|
            #![trigger final(unit).sleep[i]]
            #![trigger final(unit).pulse[i]]
            0 <= i < COUNT ==> final(unit).slot(i) == old(unit).slot(i).step(*counter),
{
    let mut values: [Option<bool>; COUNT] = no_values();
    let tick: u32 = *counter;
    for i in 0..COUNT
        invariant
            forall|j: int| 0 <= j < i ==> #[trigger] values[j] == old(unit).slot(j).emit(tick),
            forall|j: int| i <= j < COUNT ==> #[trigger] values[j] == None::<bool>,
            forall|j: int|
                #![trigger unit.sleep[j]]
                #![trigger unit.pulse[j]]
                0 <= j < i ==> unit.slot(j) == old(unit).slot(j).step(tick),
            forall|j: int|
                #![trigger unit.sleep[j]]
                #![trigger unit.pulse[j]]
                i <= j < COUNT ==> unit.slot(j) == old(unit).slot(j),
    {
        if tick == unit.sleep[i] {
            let pulse: Pulse = unit.pulse[i];
            let steady: bool = pulse.count == 0;
            let next_val: u32 = counter::next(&tick, &pulse.pace);
            unit.sleep[i] = if steady { 0 } else { next_val };
            values[i] = Some(pulse.count % 2 == 1);
            unit.pulse[i] = Pulse { count: if steady { 0 } else { pulse.count - 1 }, pace: pulse.pace };
        }
    }
    values
}

/// Starts a blink of `duration` on/off cycles on line `id`. The wake tick of
/// the line stays as it is: the new pulse is picked up when the line next
/// fires.
pub fn std_blink<const COUNT: usize>(unit: &mut Output<COUNT>, id: usize, duration: u8, pace: Pace)
    requires
        id < COUNT,
        2 * duration <= u8::MAX,
    ensures
        final(unit).slot(id as int) == old(unit).slot(id as int).blink(duration, pace),
        forall|i: int|
            #![trigger final(unit).sleep[i]]
            #![trigger final(unit).pulse[i]]
            0 <= i < COUNT && i != id ==> final(unit).slot(i) == old(unit).slot(i),
{
    unit.pulse[id] = Pulse { count: duration * 2, pace };
}

/// Selects line `id` alone for a write of `value`. The schedule is not
/// touched, so a blink in progress overrides the value at its next firing.
pub fn std_set<const COUNT: usize>(unit: &mut Output<COUNT>, id: usize, value: bool) -> (selection: [Option<bool>; COUNT])
    requires
        id < COUNT,
    ensures
        *final(unit) == *old(unit),
        forall|i: int| 0 <= i < COUNT ==> #[trigger] selection[i] == (if i == id { Some(value) } else { None }),
{
    let mut selection: [Option<bool>; COUNT] = no_values();
    selection[id] = Some(value);
    selection
}

} // verus!
