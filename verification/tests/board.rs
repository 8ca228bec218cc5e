use gameslab_mcu::battery::BatteryState;
use gameslab_mcu::leds::{create_leds, StatusLed};
use gameslab_mcu::power::{
    handle_wakeup, sleep_if_needed, wake_gpio_from_sleep, ClockState, GpioModes, PowerState,
    SleepStep,
};
use gameslab_mcu::switch::SwitchState;
use gameslab_mcu::tasks::{interrupt_exti0_1, tick_100ms};
use gameslab_mcu::usb::UsbState;
use gameslab_mcu::zynq::{PowerGood, SequenceState, ZynqState};

struct Board {
    tick: u32,
    status_led: StatusLed,
    switch: SwitchState,
    zynq: ZynqState,
    battery: BatteryState,
    power: PowerState,
}

fn boot() -> Board {
    let (status_led, charge_led) = create_leds();
    Board {
        tick: 0,
        status_led,
        switch: SwitchState::new(),
        zynq: ZynqState::new(),
        battery: BatteryState::new(charge_led),
        power: PowerState::new(),
    }
}

fn rails_follow(zynq: &ZynqState) -> PowerGood {
    let rails = zynq.rails();
    PowerGood {
        pg_1v0: rails.en_1v0,
        pg_1v5: rails.en_1v5,
        pg_1v8: rails.en_1v8,
        pg_3v3: rails.en_3v3,
    }
}

fn run_until(board: &mut Board, tick: u32) {
    while board.tick < tick {
        let pg: PowerGood = rails_follow(&board.zynq);
        tick_100ms(&mut board.tick, &mut board.battery, &mut board.zynq, pg);
    }
}

fn press(board: &mut Board) -> bool {
    interrupt_exti0_1(
        &mut board.switch,
        board.tick,
        true,
        &mut board.zynq,
        &mut board.status_led,
        &mut board.power,
    )
}

#[test]
fn boot_without_button_press() {
    let mut board = boot();
    assert_eq!(board.status_led.duty(), 0);
    assert_eq!(board.zynq.state(), SequenceState::Off);
    let mut polled: bool = false;
    for _ in 0..5 {
        if board.battery.should_update() {
            board.battery.update_if_needed(Some(0x10));
            polled = true;
        }
        let next: u32 = board.tick + 1;
        run_until(&mut board, next);
    }
    assert!(polled);
    assert!(board.battery.charge_led().is_blinking());
    assert_eq!(board.zynq.state(), SequenceState::Off);
    assert_eq!(board.status_led.duty(), 0);
}

#[test]
fn button_press_at_tick_100_powers_up() {
    let mut board = boot();
    run_until(&mut board, 100);
    assert!(press(&mut board));
    assert_eq!(board.status_led.duty(), 400);
    assert_eq!(board.zynq.state(), SequenceState::Stage0Up);
    assert!(board.power.power_state());
    let expected = [
        SequenceState::Stage1Up,
        SequenceState::Stage2Up,
        SequenceState::Stage3Up,
        SequenceState::On,
    ];
    for state in expected {
        let next: u32 = board.tick + 1;
        run_until(&mut board, next);
        assert_eq!(board.zynq.state(), state);
    }
    assert_eq!(board.tick, 104);
    assert!(board.zynq.rails().zynq_por);
    assert_eq!(board.status_led.duty(), 400);
}

#[test]
fn second_press_at_tick_102_is_ignored() {
    let mut board = boot();
    run_until(&mut board, 100);
    assert!(press(&mut board));
    run_until(&mut board, 102);
    assert_eq!(board.zynq.state(), SequenceState::Stage2Up);
    assert!(!press(&mut board));
    assert_eq!(board.zynq.state(), SequenceState::Stage2Up);
    assert_eq!(board.status_led.duty(), 400);
    assert!(board.power.power_state());
    run_until(&mut board, 104);
    assert_eq!(board.zynq.state(), SequenceState::On);
}

#[test]
fn press_while_on_powers_down() {
    let mut board = boot();
    run_until(&mut board, 100);
    assert!(press(&mut board));
    run_until(&mut board, 110);
    assert_eq!(board.zynq.state(), SequenceState::On);
    assert!(press(&mut board));
    assert_eq!(board.status_led.duty(), 0);
    assert!(!board.power.power_state());
    assert_eq!(board.zynq.state(), SequenceState::Stage3Down);
    let expected = [
        SequenceState::Stage2Down,
        SequenceState::Stage1Down,
        SequenceState::Stage0Down,
        SequenceState::Off,
    ];
    for state in expected {
        let next: u32 = board.tick + 1;
        run_until(&mut board, next);
        assert_eq!(board.zynq.state(), state);
    }
    assert_eq!(board.status_led.duty(), 0);
}

#[test]
fn charger_reports_0x10() {
    let mut board = boot();
    board.battery.update_if_needed(Some(0x10));
    assert!(board.battery.charge_led().is_blinking());
}

#[test]
fn charger_reports_0x20() {
    let mut board = boot();
    board.battery.update_if_needed(Some(0x20));
    assert!(!board.battery.charge_led().is_blinking());
    assert_eq!(board.battery.charge_led().duty(), 600);
}

#[test]
fn idle_sleeps_and_wakes() {
    let mut board = boot();
    let _usb = UsbState::new(false, &mut board.power);
    let clocks = ClockState { sw_bits: 0b11, hseon: true, pllon: true };
    let gpio = GpioModes { gpioa: 0x1234_5678, gpiob: 0x9ABC_DEF0, gpioc: 0x0F0F_0F0F };
    let entry: Option<Vec<SleepStep>> = sleep_if_needed(&mut board.power, clocks, gpio);
    let entry: Vec<SleepStep> = entry.unwrap();
    assert_eq!(entry.first(), Some(&SleepStep::StopSysTick));
    assert_eq!(entry.last(), Some(&SleepStep::WaitForInterrupt));
    let mut wake: Vec<SleepStep> = wake_gpio_from_sleep(&board.power);
    wake.extend(handle_wakeup(&board.power));
    assert_eq!(
        wake,
        vec![
            SleepStep::RestoreGpioA(0x1234_5678),
            SleepStep::RestoreGpioB(0x9ABC_DEF0),
            SleepStep::RestoreGpioC(0x0F0F_0F0F),
            SleepStep::StartHse,
            SleepStep::StartPll,
            SleepStep::SwitchClock(0b11),
            SleepStep::StartSysTick,
        ]
    );
}

#[test]
fn no_sleep_while_powered_or_attached() {
    let mut board = boot();
    let clocks = ClockState { sw_bits: 0b11, hseon: true, pllon: true };
    let gpio = GpioModes { gpioa: 0, gpiob: 0, gpioc: 0 };
    run_until(&mut board, 100);
    assert!(press(&mut board));
    assert!(sleep_if_needed(&mut board.power, clocks, gpio).is_none());
    run_until(&mut board, 110);
    assert!(press(&mut board));
    assert!(sleep_if_needed(&mut board.power, clocks, gpio).is_some());
    let mut usb = UsbState::new(false, &mut board.power);
    usb.handle_detect_interrupt(true, true, &mut board.power);
    assert!(sleep_if_needed(&mut board.power, clocks, gpio).is_none());
}

#[test]
fn tick_counts_up_and_feeds_battery_and_sequencer() {
    let mut board = boot();
    board.battery.update_if_needed(Some(0x10));
    run_until(&mut board, 5);
    assert_eq!(board.tick, 5);
    assert!(board.battery.should_update());
    assert_eq!(board.battery.charge_led().duty(), 23);
}

#[test]
fn edge_without_pending_flag_is_no_press() {
    let mut board = boot();
    run_until(&mut board, 100);
    let toggled: bool = interrupt_exti0_1(
        &mut board.switch,
        board.tick,
        false,
        &mut board.zynq,
        &mut board.status_led,
        &mut board.power,
    );
    assert!(!toggled);
    assert_eq!(board.zynq.state(), SequenceState::Off);
    assert_eq!(board.status_led.duty(), 0);
}
