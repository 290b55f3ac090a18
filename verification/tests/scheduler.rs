//! The pulse scheduler on concrete banks.

use pulse_bank::counter;
use pulse_bank::units::{no_values, std_blink, std_set, std_update, Output, Pulse};

/// Runs `ticks` through the bank and returns, for line `line`, each firing as
/// (tick, level written, count left afterwards).
fn firings<const COUNT: usize>(
    unit: &mut Output<COUNT>,
    line: usize,
    ticks: std::ops::RangeInclusive<u32>,
) -> Vec<(u32, bool, u8)> {
    let mut seen = Vec::new();
    for tick in ticks {
        let values = std_update(unit, &tick);
        if let Some(level) = values[line] {
            seen.push((tick, level, unit.pulse[line].count));
        }
    }
    seen
}

#[test]
fn next_adds_the_pace() {
    assert_eq!(counter::next(&5, &2), 7);
    assert_eq!(counter::next(&0, &0), 0);
    assert_eq!(counter::next(&1, &1), 2);
}

#[test]
fn next_wraps_with_the_counter() {
    assert_eq!(counter::next(&u32::MAX, &1), 0);
    assert_eq!(counter::next(&0xFFFF_FFFE, &5), 3);
    assert_eq!(counter::next(&u32::MAX, &u32::MAX), 0xFFFF_FFFE);
}

#[test]
fn default_pulse_is_steady() {
    assert_eq!(Pulse::default(), Pulse { count: 0, pace: 0 });
}

#[test]
fn new_bank_is_at_rest() {
    let unit: Output<4> = Output::new();
    assert_eq!(unit.sleep, [0, 0, 0, 0]);
    assert_eq!(unit.pulse, [Pulse { count: 0, pace: 0 }; 4]);
}

#[test]
fn no_values_selects_nothing() {
    let values: [Option<bool>; 3] = no_values();
    assert_eq!(values, [None, None, None]);
}

#[test]
fn blink_installs_two_toggles_per_cycle() {
    let mut unit: Output<3> = Output::new();
    unit.sleep = [4, 5, 6];
    std_blink(&mut unit, 1, 3, 2);
    assert_eq!(unit.pulse[1], Pulse { count: 6, pace: 2 });
    assert_eq!(unit.pulse[0], Pulse { count: 0, pace: 0 });
    assert_eq!(unit.pulse[2], Pulse { count: 0, pace: 0 });
    assert_eq!(unit.sleep, [4, 5, 6]);
}

#[test]
fn blink_takes_the_longest_and_the_empty_pattern() {
    let mut unit: Output<1> = Output::new();
    std_blink(&mut unit, 0, 127, 9);
    assert_eq!(unit.pulse[0], Pulse { count: 254, pace: 9 });
    std_blink(&mut unit, 0, 0, 7);
    assert_eq!(unit.pulse[0], Pulse { count: 0, pace: 7 });
}

#[test]
fn blink_replaces_a_pattern_in_progress() {
    let mut unit: Output<1> = Output::new();
    unit.sleep[0] = 1;
    std_blink(&mut unit, 0, 2, 1);
    std_update(&mut unit, &1);
    assert_eq!(unit.pulse[0].count, 3);
    std_blink(&mut unit, 0, 5, 4);
    assert_eq!(unit.pulse[0], Pulse { count: 10, pace: 4 });
    assert_eq!(unit.sleep[0], 2);
}

#[test]
fn set_selects_one_line_and_keeps_the_schedule() {
    let mut unit: Output<3> = Output::new();
    unit.sleep = [7, 8, 9];
    std_blink(&mut unit, 2, 1, 3);
    assert_eq!(std_set(&mut unit, 1, true), [None, Some(true), None]);
    assert_eq!(std_set(&mut unit, 0, false), [Some(false), None, None]);
    assert_eq!(std_set(&mut unit, 2, true), [None, None, Some(true)]);
    assert_eq!(unit.sleep, [7, 8, 9]);
    assert_eq!(unit.pulse[2], Pulse { count: 2, pace: 3 });
}

#[test]
fn a_set_level_is_overridden_at_the_next_firing() {
    let mut unit: Output<1> = Output::new();
    unit.sleep[0] = 3;
    std_blink(&mut unit, 0, 1, 1);
    assert_eq!(std_set(&mut unit, 0, true), [Some(true)]);
    assert_eq!(std_update(&mut unit, &3), [Some(false)]);
}

#[test]
fn update_writes_only_the_lines_that_are_due() {
    let mut unit: Output<4> = Output::new();
    unit.sleep = [9, 4, 9, 2];
    unit.pulse[0] = Pulse { count: 3, pace: 5 };
    unit.pulse[1] = Pulse { count: 1, pace: 1 };
    unit.pulse[2] = Pulse { count: 4, pace: 10 };
    unit.pulse[3] = Pulse { count: 7, pace: 1 };
    let values = std_update(&mut unit, &9);
    assert_eq!(values, [Some(true), None, Some(false), None]);
    assert_eq!(unit.sleep, [14, 4, 19, 2]);
    assert_eq!(unit.pulse[0], Pulse { count: 2, pace: 5 });
    assert_eq!(unit.pulse[1], Pulse { count: 1, pace: 1 });
    assert_eq!(unit.pulse[2], Pulse { count: 3, pace: 10 });
    assert_eq!(unit.pulse[3], Pulse { count: 7, pace: 1 });
}

#[test]
fn update_with_no_line_due_changes_nothing() {
    let mut unit: Output<2> = Output::new();
    unit.sleep = [3, 8];
    unit.pulse[0] = Pulse { count: 2, pace: 1 };
    assert_eq!(std_update(&mut unit, &5), [None, None]);
    assert_eq!(unit.sleep, [3, 8]);
    assert_eq!(unit.pulse[0], Pulse { count: 2, pace: 1 });
    assert_eq!(unit.pulse[1], Pulse { count: 0, pace: 0 });
}

#[test]
fn a_steady_line_that_is_due_writes_off_and_rests() {
    let mut unit: Output<1> = Output::new();
    unit.sleep[0] = 12;
    unit.pulse[0] = Pulse { count: 0, pace: 6 };
    assert_eq!(std_update(&mut unit, &12), [Some(false)]);
    assert_eq!(unit.sleep[0], 0);
    assert_eq!(unit.pulse[0], Pulse { count: 0, pace: 6 });
}

#[test]
fn the_wake_tick_wraps_with_the_counter() {
    let mut unit: Output<1> = Output::new();
    unit.sleep[0] = u32::MAX;
    unit.pulse[0] = Pulse { count: 2, pace: 3 };
    assert_eq!(std_update(&mut unit, &u32::MAX), [Some(false)]);
    assert_eq!(unit.sleep[0], 2);
    assert_eq!(unit.pulse[0].count, 1);
}

#[test]
fn count_never_grows_over_a_run() {
    let mut unit: Output<2> = Output::new();
    unit.sleep = [2, 3];
    std_blink(&mut unit, 0, 4, 3);
    std_blink(&mut unit, 1, 2, 1);
    let mut before = [unit.pulse[0].count, unit.pulse[1].count];
    for tick in 0..60u32 {
        std_update(&mut unit, &tick);
        for line in 0..2 {
            assert!(unit.pulse[line].count <= before[line]);
            assert!(before[line] - unit.pulse[line].count <= 1);
            before[line] = unit.pulse[line].count;
        }
    }
    assert_eq!(before, [0, 0]);
}

#[test]
fn two_cycles_at_pace_one_alternate_off_on() {
    let mut unit: Output<1> = Output::new();
    unit.sleep[0] = 1;
    std_blink(&mut unit, 0, 2, 1);
    let seen = firings(&mut unit, 0, 1..=4);
    assert_eq!(seen, vec![(1, false, 3), (2, true, 2), (3, false, 1), (4, true, 0)]);
    // One more firing brings the line to rest with the light off.
    assert_eq!(std_update(&mut unit, &5), [Some(false)]);
    assert_eq!(unit.sleep[0], 0);
    assert_eq!(firings(&mut unit, 0, 6..=200), vec![]);
}

#[test]
fn blink_requested_on_a_due_line_runs_to_rest() {
    let mut unit: Output<2> = Output::new();
    assert_eq!(unit.pulse[0].count, 0);
    assert_eq!(unit.pulse[1].count, 0);
    // Tick 5 finds line 1 due, and a blink of three cycles at pace 2 asked for.
    unit.sleep[1] = 5;
    std_blink(&mut unit, 1, 3, 2);
    assert_eq!(unit.pulse[1], Pulse { count: 6, pace: 2 });
    let mut seen = Vec::new();
    for tick in 5..=40u32 {
        let values = std_update(&mut unit, &tick);
        assert_eq!(values[0], None);
        if let Some(level) = values[1] {
            seen.push((tick, level, unit.pulse[1].count, unit.sleep[1]));
        }
    }
    assert_eq!(
        seen,
        vec![
            (5, false, 5, 7),
            (7, true, 4, 9),
            (9, false, 3, 11),
            (11, true, 2, 13),
            (13, false, 1, 15),
            (15, true, 0, 17),
            (17, false, 0, 0),
        ]
    );
    assert_eq!(unit.sleep, [0, 0]);
}

#[test]
fn a_line_at_rest_stays_silent() {
    let mut unit: Output<2> = Output::new();
    assert_eq!(firings(&mut unit, 0, 1..=500), vec![]);
    assert_eq!(firings(&mut unit, 1, 501..=1000), vec![]);
    assert_eq!(unit.sleep, [0, 0]);
}

#[test]
fn once_the_count_is_zero_one_firing_is_left() {
    let mut unit: Output<1> = Output::new();
    unit.sleep[0] = 10;
    unit.pulse[0] = Pulse { count: 1, pace: 4 };
    assert_eq!(firings(&mut unit, 0, 1..=300), vec![(10, true, 0), (14, false, 0)]);
    assert_eq!(unit.sleep[0], 0);
}

#[test]
fn blink_on_a_resting_line_waits_for_tick_zero() {
    // A blink request leaves the wake tick alone, so a line at rest picks the
    // pattern up only when the counter itself comes round to 0.
    let mut unit: Output<1> = Output::new();
    std_blink(&mut unit, 0, 1, 2);
    assert_eq!(firings(&mut unit, 0, 1..=100), vec![]);
    assert_eq!(unit.pulse[0].count, 2);
    assert_eq!(firings(&mut unit, 0, 0..=10), vec![(0, false, 1), (2, true, 0), (4, false, 0)]);
}

#[test]
fn a_resting_line_fires_again_on_tick_zero() {
    let mut unit: Output<1> = Output::new();
    assert_eq!(std_update(&mut unit, &0), [Some(false)]);
    assert_eq!(unit.sleep[0], 0);
    assert_eq!(std_update(&mut unit, &0), [Some(false)]);
}
