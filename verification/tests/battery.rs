use gameslab_mcu::battery::{
    decode_status, BatteryState, ChargeStatus, BQ24250_ADDR, STATUS_REGISTER, UPDATE_INTERVAL,
};
use gameslab_mcu::leds::create_leds;

fn monitor() -> BatteryState {
    let (_status, charge) = create_leds();
    BatteryState::new(charge)
}

#[test]
fn charger_constants() {
    assert_eq!(BQ24250_ADDR, 0x6A);
    assert_eq!(STATUS_REGISTER, 0x00);
    assert_eq!(UPDATE_INTERVAL, 5);
}

#[test]
fn decode_takes_bits_5_and_4() {
    assert_eq!(decode_status(0x00), ChargeStatus::Ready);
    assert_eq!(decode_status(0x10), ChargeStatus::Charging);
    assert_eq!(decode_status(0x20), ChargeStatus::Done);
    assert_eq!(decode_status(0x30), ChargeStatus::Fault);
    assert_eq!(decode_status(0xCF), ChargeStatus::Ready);
    assert_eq!(decode_status(0xDF), ChargeStatus::Charging);
    assert_eq!(decode_status(0xEF), ChargeStatus::Done);
    assert_eq!(decode_status(0xFF), ChargeStatus::Fault);
}

#[test]
fn first_poll_is_due_at_once() {
    let battery = monitor();
    assert!(battery.should_update());
}

#[test]
fn charging_makes_the_led_breathe() {
    let mut battery = monitor();
    battery.update_if_needed(Some(0x10));
    assert!(!battery.should_update());
    assert!(battery.charge_led().is_blinking());
    assert_eq!(battery.charge_led().duty(), 20);
}

#[test]
fn charge_done_makes_the_led_solid() {
    let mut battery = monitor();
    battery.update_if_needed(Some(0x20));
    assert!(!battery.charge_led().is_blinking());
    assert_eq!(battery.charge_led().duty(), 600);
}

#[test]
fn ready_and_fault_turn_the_led_off() {
    let mut battery = monitor();
    battery.update_if_needed(Some(0x20));
    battery.tick(5);
    battery.update_if_needed(Some(0x00));
    assert_eq!(battery.charge_led().duty(), 0);
    battery.tick(10);
    battery.update_if_needed(Some(0x20));
    assert_eq!(battery.charge_led().duty(), 600);
    battery.tick(15);
    battery.update_if_needed(Some(0x30));
    assert_eq!(battery.charge_led().duty(), 0);
    assert!(!battery.charge_led().is_blinking());
}

#[test]
fn failed_transfer_skips_the_cycle_and_keeps_the_led() {
    let mut battery = monitor();
    battery.update_if_needed(Some(0x20));
    battery.tick(5);
    assert!(battery.should_update());
    battery.update_if_needed(None);
    assert!(!battery.should_update());
    assert_eq!(battery.charge_led().duty(), 600);
}

#[test]
fn update_when_not_due_changes_nothing() {
    let mut battery = monitor();
    battery.update_if_needed(Some(0x00));
    battery.update_if_needed(Some(0x20));
    assert_eq!(battery.charge_led().duty(), 0);
}

#[test]
fn poll_falls_due_every_five_ticks() {
    let mut battery = monitor();
    battery.update_if_needed(Some(0x00));
    for now in 1u32..=4 {
        battery.tick(now);
        assert!(!battery.should_update());
    }
    battery.tick(5);
    assert!(battery.should_update());
    battery.update_if_needed(Some(0x00));
    for now in 6u32..=9 {
        battery.tick(now);
        assert!(!battery.should_update());
    }
    battery.tick(10);
    assert!(battery.should_update());
}

#[test]
fn tick_moves_the_breathing_led() {
    let mut battery = monitor();
    battery.update_if_needed(Some(0x10));
    battery.tick(1);
    assert_eq!(battery.charge_led().duty(), 21);
    battery.tick(2);
    battery.tick(3);
    battery.tick(4);
    assert_eq!(battery.charge_led().duty(), 22);
}

#[test]
fn charging_again_does_not_restart_the_breath() {
    let mut battery = monitor();
    battery.update_if_needed(Some(0x10));
    for now in 1u32..=5 {
        battery.tick(now);
    }
    assert_eq!(battery.charge_led().duty(), 23);
    battery.update_if_needed(Some(0x10));
    assert_eq!(battery.charge_led().duty(), 23);
}

#[test]
fn poll_near_the_end_of_the_counter() {
    let mut battery = monitor();
    battery.update_if_needed(Some(0x00));
    battery.tick(u32::MAX - 2);
    assert!(battery.should_update());
    battery.update_if_needed(Some(0x00));
    battery.tick(u32::MAX);
    assert!(!battery.should_update());
}
