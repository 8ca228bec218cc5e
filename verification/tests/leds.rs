use gameslab_mcu::leds::{
    create_leds, BLINK_DUTY_TABLE, BLINK_MAX_DUTY, BLINK_MIN_DUTY, STATUS_MAX_DUTY,
};

#[test]
fn leds_start_dark() {
    let (status, charge) = create_leds();
    assert_eq!(status.duty(), 0);
    assert_eq!(charge.duty(), 0);
    assert!(!charge.is_blinking());
}

#[test]
fn status_led_on_and_off() {
    let (mut status, _charge) = create_leds();
    status.on();
    assert_eq!(status.duty(), 400);
    assert_eq!(STATUS_MAX_DUTY, 400);
    status.off();
    assert_eq!(status.duty(), 0);
}

#[test]
fn charge_led_on_and_off() {
    let (_status, mut charge) = create_leds();
    charge.on();
    assert_eq!(charge.duty(), 600);
    assert_eq!(BLINK_MAX_DUTY, 600);
    assert!(!charge.is_blinking());
    charge.off();
    assert_eq!(charge.duty(), 0);
}

#[test]
fn tick_without_blink_keeps_the_duty() {
    let (_status, mut charge) = create_leds();
    charge.tick(1);
    assert_eq!(charge.duty(), 0);
    charge.on();
    charge.tick(2);
    assert_eq!(charge.duty(), 600);
}

#[test]
fn blink_starts_at_the_dark_end() {
    let (_status, mut charge) = create_leds();
    charge.blink();
    assert!(charge.is_blinking());
    assert_eq!(charge.duty(), 20);
    assert_eq!(BLINK_MIN_DUTY, 20);
}

#[test]
fn breathing_shape_over_58_ticks() {
    let (_status, mut charge) = create_leds();
    charge.blink();
    let mut seen: Vec<u16> = vec![charge.duty()];
    for now in 1u32..=58 {
        charge.tick(now);
        seen.push(charge.duty());
    }
    let mut expected: Vec<u16> = Vec::new();
    for step in 0usize..=28 {
        expected.push(BLINK_MIN_DUTY + BLINK_DUTY_TABLE[step]);
    }
    for step in (0usize..=27).rev() {
        expected.push(BLINK_MIN_DUTY + BLINK_DUTY_TABLE[step]);
    }
    expected.push(BLINK_MIN_DUTY + BLINK_DUTY_TABLE[1]);
    expected.push(BLINK_MIN_DUTY + BLINK_DUTY_TABLE[2]);
    assert_eq!(expected.len(), 59);
    assert_eq!(seen, expected);
}

#[test]
fn breathing_exact_values() {
    let (_status, mut charge) = create_leds();
    charge.blink();
    charge.tick(1);
    assert_eq!(charge.duty(), 21);
    for now in 2u32..=28 {
        charge.tick(now);
    }
    assert_eq!(charge.duty(), 599);
    charge.tick(29);
    assert_eq!(charge.duty(), 485);
    for now in 30u32..=56 {
        charge.tick(now);
    }
    assert_eq!(charge.duty(), 20);
    charge.tick(57);
    assert_eq!(charge.duty(), 21);
}

#[test]
fn blink_while_blinking_does_not_restart() {
    let (_status, mut charge) = create_leds();
    charge.blink();
    for now in 1u32..=10 {
        charge.tick(now);
    }
    assert_eq!(charge.duty(), 30);
    charge.blink();
    assert_eq!(charge.duty(), 30);
    charge.tick(11);
    assert_eq!(charge.duty(), 33);
}

#[test]
fn blink_after_on_starts_over() {
    let (_status, mut charge) = create_leds();
    charge.blink();
    for now in 1u32..=40 {
        charge.tick(now);
    }
    charge.on();
    charge.tick(41);
    assert_eq!(charge.duty(), 600);
    charge.blink();
    assert_eq!(charge.duty(), 20);
    charge.tick(42);
    assert_eq!(charge.duty(), 21);
}

#[test]
fn breathing_table_has_29_rising_steps() {
    assert_eq!(BLINK_DUTY_TABLE.len(), 29);
    assert_eq!(BLINK_DUTY_TABLE[0], 0);
    assert_eq!(BLINK_DUTY_TABLE[28], 579);
    for step in 1usize..29 {
        assert!(BLINK_DUTY_TABLE[step - 1] <= BLINK_DUTY_TABLE[step]);
    }
}
