use gameslab_mcu::power::PowerState;
use gameslab_mcu::zynq::{PowerGood, Rails, SequenceState, ZynqState};

fn all(level: bool) -> PowerGood {
    PowerGood { pg_1v0: level, pg_1v5: level, pg_1v8: level, pg_3v3: level }
}

fn rails(en_1v0: bool, en_1v5: bool, en_1v8: bool, en_3v3: bool, zynq_por: bool) -> Rails {
    Rails { en_1v0, en_1v5, en_1v8, en_3v3, zynq_por }
}

fn powered_on(power: &mut PowerState) -> ZynqState {
    let mut zynq = ZynqState::new();
    zynq.power_up(power);
    for now in 1u32..=4 {
        zynq.tick(now, all(true));
    }
    assert_eq!(zynq.state(), SequenceState::On);
    zynq
}

#[test]
fn starts_off_with_every_output_low() {
    let zynq = ZynqState::new();
    assert_eq!(zynq.state(), SequenceState::Off);
    assert_eq!(zynq.rails(), rails(false, false, false, false, false));
    assert!(!zynq.is_power_on());
}

#[test]
fn tick_in_off_changes_nothing() {
    let mut zynq = ZynqState::new();
    zynq.tick(1, all(true));
    zynq.tick(2, all(false));
    assert_eq!(zynq.state(), SequenceState::Off);
    assert_eq!(zynq.rails(), rails(false, false, false, false, false));
}

#[test]
fn up_sequence_takes_one_stage_per_tick() {
    let mut power = PowerState::new();
    let mut zynq = ZynqState::new();
    zynq.power_up(&mut power);
    assert!(power.power_state());
    assert_eq!(zynq.state(), SequenceState::Stage0Up);
    assert_eq!(zynq.rails(), rails(false, false, false, false, false));
    zynq.tick(1, all(true));
    assert_eq!(zynq.state(), SequenceState::Stage1Up);
    assert_eq!(zynq.rails(), rails(true, false, false, false, false));
    zynq.tick(2, all(true));
    assert_eq!(zynq.state(), SequenceState::Stage2Up);
    assert_eq!(zynq.rails(), rails(true, false, true, false, false));
    zynq.tick(3, all(true));
    assert_eq!(zynq.state(), SequenceState::Stage3Up);
    assert_eq!(zynq.rails(), rails(true, true, true, true, false));
    zynq.tick(4, all(true));
    assert_eq!(zynq.state(), SequenceState::On);
    assert_eq!(zynq.rails(), rails(true, true, true, true, true));
    zynq.tick(5, all(true));
    assert_eq!(zynq.state(), SequenceState::On);
    assert!(zynq.is_power_on());
}

#[test]
fn first_up_step_needs_no_power_good() {
    let mut power = PowerState::new();
    let mut zynq = ZynqState::new();
    zynq.power_up(&mut power);
    zynq.tick(1, all(false));
    assert_eq!(zynq.state(), SequenceState::Stage1Up);
    assert_eq!(zynq.rails(), rails(true, false, false, false, false));
}

#[test]
fn reset_is_released_only_in_on() {
    let mut power = PowerState::new();
    let mut zynq = ZynqState::new();
    assert!(!zynq.rails().zynq_por);
    zynq.power_up(&mut power);
    for now in 1u32..=3 {
        zynq.tick(now, all(true));
        assert_ne!(zynq.state(), SequenceState::On);
        assert!(!zynq.rails().zynq_por);
    }
    zynq.tick(4, all(true));
    assert_eq!(zynq.state(), SequenceState::On);
    assert!(zynq.rails().zynq_por);
    zynq.power_down(&mut power);
    assert!(!zynq.rails().zynq_por);
    for now in 5u32..=9 {
        zynq.tick(now, all(false));
        assert!(!zynq.rails().zynq_por);
    }
    assert_eq!(zynq.state(), SequenceState::Off);
}

#[test]
fn stuck_1v0_keeps_stage1up() {
    let mut power = PowerState::new();
    let mut zynq = ZynqState::new();
    zynq.power_up(&mut power);
    zynq.tick(1, all(true));
    let stuck = PowerGood { pg_1v0: false, pg_1v5: true, pg_1v8: true, pg_3v3: true };
    for now in 2u32..200 {
        zynq.tick(now, stuck);
        assert_eq!(zynq.state(), SequenceState::Stage1Up);
        assert_eq!(zynq.rails(), rails(true, false, false, false, false));
    }
}

#[test]
fn stage2up_waits_for_1v8() {
    let mut power = PowerState::new();
    let mut zynq = ZynqState::new();
    zynq.power_up(&mut power);
    zynq.tick(1, all(true));
    zynq.tick(2, all(true));
    let waiting = PowerGood { pg_1v0: true, pg_1v5: true, pg_1v8: false, pg_3v3: true };
    zynq.tick(3, waiting);
    assert_eq!(zynq.state(), SequenceState::Stage2Up);
    assert_eq!(zynq.rails(), rails(true, false, true, false, false));
}

#[test]
fn stage3up_waits_for_both_1v5_and_3v3() {
    let mut power = PowerState::new();
    let mut zynq = ZynqState::new();
    zynq.power_up(&mut power);
    for now in 1u32..=3 {
        zynq.tick(now, all(true));
    }
    zynq.tick(4, PowerGood { pg_1v0: true, pg_1v5: true, pg_1v8: true, pg_3v3: false });
    assert_eq!(zynq.state(), SequenceState::Stage3Up);
    zynq.tick(5, PowerGood { pg_1v0: true, pg_1v5: false, pg_1v8: true, pg_3v3: true });
    assert_eq!(zynq.state(), SequenceState::Stage3Up);
    assert!(!zynq.rails().zynq_por);
    zynq.tick(6, PowerGood { pg_1v0: false, pg_1v5: true, pg_1v8: false, pg_3v3: true });
    assert_eq!(zynq.state(), SequenceState::On);
}

#[test]
fn down_sequence_clears_enables_in_reverse_order() {
    let mut power = PowerState::new();
    let mut zynq = powered_on(&mut power);
    zynq.power_down(&mut power);
    assert!(!power.power_state());
    assert_eq!(zynq.state(), SequenceState::Stage3Down);
    assert_eq!(zynq.rails(), rails(true, true, true, true, false));
    zynq.tick(10, all(true));
    assert_eq!(zynq.state(), SequenceState::Stage2Down);
    assert_eq!(zynq.rails(), rails(true, false, true, false, false));
    zynq.tick(11, PowerGood { pg_1v0: true, pg_1v5: false, pg_1v8: true, pg_3v3: false });
    assert_eq!(zynq.state(), SequenceState::Stage1Down);
    assert_eq!(zynq.rails(), rails(true, false, false, false, false));
    zynq.tick(12, PowerGood { pg_1v0: true, pg_1v5: false, pg_1v8: false, pg_3v3: false });
    assert_eq!(zynq.state(), SequenceState::Stage0Down);
    assert_eq!(zynq.rails(), rails(false, false, false, false, false));
    zynq.tick(13, all(false));
    assert_eq!(zynq.state(), SequenceState::Off);
    assert_eq!(zynq.rails(), rails(false, false, false, false, false));
}

#[test]
fn down_sequence_stalls_while_a_rail_stays_up() {
    let mut power = PowerState::new();
    let mut zynq = powered_on(&mut power);
    zynq.power_down(&mut power);
    zynq.tick(10, all(true));
    let held = PowerGood { pg_1v0: false, pg_1v5: false, pg_1v8: false, pg_3v3: true };
    for now in 11u32..50 {
        zynq.tick(now, held);
        assert_eq!(zynq.state(), SequenceState::Stage2Down);
        assert_eq!(zynq.rails(), rails(true, false, true, false, false));
    }
    zynq.tick(50, all(false));
    assert_eq!(zynq.state(), SequenceState::Stage1Down);
}

#[test]
fn power_up_while_up_is_ignored() {
    let mut power = PowerState::new();
    let mut zynq = ZynqState::new();
    zynq.power_up(&mut power);
    zynq.tick(1, all(true));
    zynq.tick(2, all(true));
    let before: Rails = zynq.rails();
    zynq.power_up(&mut power);
    assert_eq!(zynq.state(), SequenceState::Stage2Up);
    assert_eq!(zynq.rails(), before);
    let mut on = powered_on(&mut power);
    on.power_up(&mut power);
    assert_eq!(on.state(), SequenceState::On);
    assert!(on.rails().zynq_por);
}

#[test]
fn power_down_while_down_is_ignored() {
    let mut power = PowerState::new();
    let mut zynq = ZynqState::new();
    zynq.power_down(&mut power);
    assert_eq!(zynq.state(), SequenceState::Off);
    assert!(!power.power_state());
    let mut on = powered_on(&mut power);
    on.power_down(&mut power);
    on.tick(10, all(true));
    on.power_down(&mut power);
    assert_eq!(on.state(), SequenceState::Stage2Down);
}

#[test]
fn power_down_on_the_way_up_keeps_the_enables() {
    let mut power = PowerState::new();
    let mut zynq = ZynqState::new();
    zynq.power_up(&mut power);
    zynq.tick(1, all(true));
    zynq.tick(2, all(true));
    zynq.power_down(&mut power);
    assert_eq!(zynq.state(), SequenceState::Stage3Down);
    assert_eq!(zynq.rails(), rails(true, false, true, false, false));
}

#[test]
fn power_up_on_the_way_down_restarts_from_stage0() {
    let mut power = PowerState::new();
    let mut zynq = powered_on(&mut power);
    zynq.power_down(&mut power);
    zynq.tick(10, all(true));
    zynq.power_up(&mut power);
    assert!(power.power_state());
    assert_eq!(zynq.state(), SequenceState::Stage0Up);
    assert_eq!(zynq.rails(), rails(true, false, true, false, false));
}

#[test]
fn toggle_goes_up_from_down_states_and_down_from_up_states() {
    let mut power = PowerState::new();
    let mut zynq = ZynqState::new();
    zynq.power_toggle(&mut power);
    assert_eq!(zynq.state(), SequenceState::Stage0Up);
    assert!(zynq.is_power_on());
    assert!(power.power_state());
    zynq.power_toggle(&mut power);
    assert_eq!(zynq.state(), SequenceState::Stage3Down);
    assert!(!zynq.is_power_on());
    assert!(!power.power_state());
    zynq.tick(1, all(false));
    zynq.power_toggle(&mut power);
    assert_eq!(zynq.state(), SequenceState::Stage0Up);
}
