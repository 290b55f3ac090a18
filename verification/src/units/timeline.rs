//! One line over many ticks: what it writes, and what is true of every run.

use super::pulse::{Pace, Slot};
use vstd::prelude::*;

verus! {

/// Whether no tick of the run is tick `0`, the tick on which a line that was
/// put to rest wakes once more when the counter wraps.
pub open spec fn clear_of_zero(ticks: Seq<u32>) -> bool {
    forall|k: int| 0 <= k < ticks.len() ==> #[trigger] ticks[k] != 0
}

/// The remaining toggles of a line that had `count` of them and fired
/// `firings` times since.
pub open spec fn toggles_left(count: u8, firings: nat) -> int {
    if firings < count { count - firings } else { 0 }
}

impl Slot {
    /// The line after the ticks of `ticks`, taken in order.
    pub open spec fn run(self, ticks: Seq<u32>) -> Slot
        decreases ticks.len(),
    {
        if ticks.len() == 0 {
            self
        } else {
            self.run(ticks.drop_last()).step(ticks.last())
        }
    }

    /// The levels written to the line over `ticks`: one entry per firing, in
    /// the order of the firings.
    pub open spec fn levels(self, ticks: Seq<u32>) -> Seq<bool>
        decreases ticks.len(),
    {
        if ticks.len() == 0 {
            Seq::empty()
        } else {
            let earlier = self.levels(ticks.drop_last());
            match self.run(ticks.drop_last()).emit(ticks.last()) {
                Some(level) => earlier.push(level),
                None => earlier,
            }
        }
    }
}

/// Running one more tick is one more step: the line moves as that tick
/// says, and what the tick writes, if anything, comes last.
pub proof fn lemma_run_one_more(slot: Slot, ticks: Seq<u32>, tick: u32)
    ensures
        slot.run(ticks.push(tick)) == slot.run(ticks).step(tick),
        slot.levels(ticks.push(tick)) == (match slot.run(ticks).emit(tick) {
            Some(level) => slot.levels(ticks).push(level),
            None => slot.levels(ticks),
        }),
{
    assert(ticks.push(tick).drop_last() =~= ticks);
}

/// One tick never adds toggles: the count stays, or drops by one, and a
/// count of zero stays zero.
pub proof fn lemma_step_counts_down(slot: Slot, tick: u32)
    ensures
        slot.step(tick).pulse.count <= slot.pulse.count,
        slot.pulse.count - slot.step(tick).pulse.count <= 1,
        slot.step(tick).pulse.count == slot.pulse.count <==> !slot.due(tick) || slot.pulse.count == 0,
{
}

/// Over any run of ticks the count of a line never grows: after `later`
/// ticks it is at most what it was after `sooner` of them.
pub proof fn lemma_count_never_grows(slot: Slot, ticks: Seq<u32>, sooner: int, later: int)
    requires
        0 <= sooner <= later <= ticks.len(),
    ensures
        slot.run(ticks.take(later)).pulse.count <= slot.run(ticks.take(sooner)).pulse.count,
    decreases later - sooner,
{
    if sooner < later {
        lemma_count_never_grows(slot, ticks, sooner, later - 1);
        assert(ticks.take(later).drop_last() =~= ticks.take(later - 1));
    }
}

/// Each firing spends one toggle and writes the parity of what was left:
/// firing number `k` of a line that started with `count` toggles writes
/// `true` exactly when `count - k` is positive and odd. The pace is never
/// changed by a tick.
pub proof fn lemma_levels_follow_count(slot: Slot, ticks: Seq<u32>)
    ensures
        slot.run(ticks).pulse.count == toggles_left(slot.pulse.count, slot.levels(ticks).len()),
        slot.run(ticks).pulse.pace == slot.pulse.pace,
        forall|k: int|
            0 <= k < slot.levels(ticks).len() ==> #[trigger] slot.levels(ticks)[k] == (toggles_left(
                slot.pulse.count,
                k as nat,
            ) % 2 == 1),
    decreases ticks.len(),
{
    if ticks.len() > 0 {
        lemma_levels_follow_count(slot, ticks.drop_last());
    }
}

/// A blink of `duration` cycles makes the next `2 * duration` firings of the
/// line alternate strictly: they write off, on, off, on and so on, each
/// differing from the one before, and the last of them writes on. The firing
/// after those, if there is one, writes off.
pub proof fn lemma_blink_alternates(slot: Slot, duration: u8, pace: Pace, ticks: Seq<u32>)
    requires
        2 * duration <= u8::MAX,
    ensures
        forall|k: int|
            0 <= k < slot.blink(duration, pace).levels(ticks).len() && k < 2 * duration
                ==> #[trigger] slot.blink(duration, pace).levels(ticks)[k] == (k % 2 == 1),
        forall|k: int|
            0 <= k && k + 1 < slot.blink(duration, pace).levels(ticks).len() && k < 2 * duration
                ==> #[trigger] slot.blink(duration, pace).levels(ticks)[k] != slot.blink(
                duration,
                pace,
            ).levels(ticks)[k + 1],
        forall|k: int|
            2 * duration <= k < slot.blink(duration, pace).levels(ticks).len()
                ==> !#[trigger] slot.blink(duration, pace).levels(ticks)[k],
{
    let armed = slot.blink(duration, pace);
    lemma_levels_follow_count(armed, ticks);
    let levels = armed.levels(ticks);
    assert forall|k: int| 0 <= k < levels.len() && k < 2 * duration implies #[trigger] levels[k] == (
    k % 2 == 1) by {
        assert(toggles_left(armed.pulse.count, k as nat) == 2 * duration - k);
    }
    assert forall|k: int| 0 <= k && k + 1 < levels.len() && k < 2 * duration implies #[trigger] levels[k]
        != levels[k + 1] by {
        assert(toggles_left(armed.pulse.count, k as nat) == 2 * duration - k);
        assert(toggles_left(armed.pulse.count, (k + 1) as nat) == 2 * duration - k - 1);
    }
}

/// A line with `count` toggles left fires at most `count + 1` times over a
/// run that is clear of tick `0`: once per toggle, and once more to come to
/// rest. After that last firing it sleeps until tick `0`.
pub proof fn lemma_firings_bounded(slot: Slot, ticks: Seq<u32>)
    requires
        clear_of_zero(ticks),
    ensures
        slot.levels(ticks).len() <= slot.pulse.count + 1,
        slot.levels(ticks).len() == slot.pulse.count + 1 ==> slot.run(ticks).sleep == 0,
    decreases ticks.len(),
{
    if ticks.len() > 0 {
        lemma_firings_bounded(slot, ticks.drop_last());
        lemma_levels_follow_count(slot, ticks.drop_last());
        assert(ticks.last() == ticks[ticks.len() - 1]);
    }
}

/// A line that sleeps until tick `0` is silent over every run that is clear
/// of tick `0`: it never fires, and nothing about it changes. A blink
/// request does not wake it, since it leaves the wake tick alone.
pub proof fn lemma_rest_is_silent(slot: Slot, ticks: Seq<u32>)
    requires
        slot.sleep == 0,
        clear_of_zero(ticks),
    ensures
        slot.run(ticks) == slot,
        slot.levels(ticks).len() == 0,
        forall|duration: u8, pace: Pace| #[trigger] slot.blink(duration, pace).levels(ticks).len() == 0,
    decreases ticks.len(),
{
    if ticks.len() > 0 {
        lemma_rest_is_silent(slot, ticks.drop_last());
        assert(ticks.last() == ticks[ticks.len() - 1]);
        assert forall|duration: u8, pace: Pace| #[trigger] slot.blink(duration, pace).levels(ticks).len() == 0 by {
            lemma_rest_is_silent(slot.blink(duration, pace), ticks.drop_last());
        }
    }
}

/// Once the count of a line is at zero, a run that is clear of tick `0` sees
/// it fire at most once more. That firing writes off and puts the line to
/// rest, and the count stays at zero throughout.
pub proof fn lemma_idle_suppressed(slot: Slot, ticks: Seq<u32>)
    requires
        slot.pulse.count == 0,
        clear_of_zero(ticks),
    ensures
        slot.run(ticks).pulse.count == 0,
        slot.levels(ticks).len() <= 1,
        slot.levels(ticks).len() == 1 ==> !slot.levels(ticks)[0] && slot.run(ticks).sleep == 0,
{
    lemma_firings_bounded(slot, ticks);
    lemma_levels_follow_count(slot, ticks);
}

} // verus!
