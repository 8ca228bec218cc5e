//! The battery monitor: when to ask the charger for its status, and what the
//! charge LED shows for the answer.
//!
//! The I2C transfer is the caller's. When `should_update()` says so it writes
//! the register pointer `STATUS_REGISTER` to the charger at `BQ24250_ADDR`,
//! reads one byte back, and hands what it got to `update_if_needed`.

use vstd::prelude::*;
use crate::leds::{ChargeLed, ChargeLedView};

verus! {

/// Speed of the I2C bus, in kHz.
pub const I2C_FREQUENCY_KHZ: u32 = 400;

/// I2C address of the charger.
pub const BQ24250_ADDR: u8 = 0x6A;

/// I2C address of the fuel gauge. Nothing is read from it yet.
pub const STC3115_ADDR: u8 = 0x70;

/// Register of the charger that holds its status.
pub const STATUS_REGISTER: u8 = 0x00;

/// Ticks between two polls of the charger.
pub const UPDATE_INTERVAL: u32 = 5;

/// What the charger reports.
#[derive(Clone, Copy, Debug, PartialEq, Eq, Structural)]
pub enum ChargeStatus {
    /// No charge under way: ready, or no source.
    Ready,
    /// Charging.
    Charging,
    /// Charge done.
    Done,
    /// A fault, which the charger's register leaves undefined.
    Fault,
}

/// The charge state in a status byte: bits 5 and 4.
pub open spec fn status_bits(status: u8) -> u8 {
    (status & 0x30) >> 4
}

/// The charge state that a status byte reports.
pub open spec fn charge_status(status: u8) -> ChargeStatus {
    if status_bits(status) == 0 {
        ChargeStatus::Ready
    } else if status_bits(status) == 1 {
        ChargeStatus::Charging
    } else if status_bits(status) == 2 {
        ChargeStatus::Done
    } else {
        ChargeStatus::Fault
    }
}

/// What the charge LED shows for a charge state: it breathes while the
/// battery charges, is solidly on when the charge is done, and is dark
/// otherwise, on a fault too.
pub open spec fn led_for(led: ChargeLedView, status: ChargeStatus) -> ChargeLedView {
    match status {
        ChargeStatus::Ready => led.off(),
        ChargeStatus::Charging => led.blink(),
        ChargeStatus::Done => led.on(),
        ChargeStatus::Fault => led.off(),
    }
}

/// Decodes a status byte of the charger.
pub fn decode_status(status: u8) -> (charge: ChargeStatus)
    ensures
        charge == charge_status(status),
{
    let bits = (status & 0x30) >> 4;
    if bits == 0 {
        ChargeStatus::Ready
    } else if bits == 1 {
        ChargeStatus::Charging
    } else if bits == 2 {
        ChargeStatus::Done
    } else {
        ChargeStatus::Fault
    }
}

/// What the monitor knows.
pub struct BatteryStateView {
    /// The charge LED.
    pub charge_led: ChargeLedView,
    /// A poll of the charger is due.
    pub should_update: bool,
    /// Tick at which the last poll fell due.
    pub last_update: u32,
}

impl BatteryStateView {
    /// One tick: the LED moves on, and a poll falls due when
    /// `UPDATE_INTERVAL` ticks have passed since the last one did.
    pub open spec fn tick(self, now: u32) -> Self {
        if now >= self.last_update + UPDATE_INTERVAL {
            BatteryStateView {
                charge_led: self.charge_led.tick(),
                should_update: true,
                last_update: now,
            }
        } else {
            BatteryStateView { charge_led: self.charge_led.tick(), ..self }
        }
    }

    /// The outcome of a poll: `Some` with the status byte, or `None` when the
    /// transfer failed. When no poll is due nothing changes. A due poll is
    /// settled either way; a status byte sets the LED, a failed transfer leaves
    /// it as it is.
    pub open spec fn update(self, reading: Option<u8>) -> Self {
        if !self.should_update {
            self
        } else {
            match reading {
                Some(status) => BatteryStateView {
                    charge_led: led_for(self.charge_led, charge_status(status)),
                    should_update: false,
                    ..self
                },
                None => BatteryStateView { should_update: false, ..self },
            }
        }
    }
}

/// The battery monitor. It owns the charge LED.
pub struct BatteryState {
    charge_led: ChargeLed,
    should_update: bool,
    last_update: u32,
}

impl View for BatteryState {
    type V = BatteryStateView;

    closed spec fn view(&self) -> BatteryStateView {
        BatteryStateView {
            charge_led: self.charge_led@,
            should_update: self.should_update,
            last_update: self.last_update,
        }
    }
}

impl BatteryState {
    /// A monitor that has not polled yet: its first poll is due at once.
    pub fn new(charge_led: ChargeLed) -> (battery: Self)
        ensures
            battery@ == (BatteryStateView {
                charge_led: charge_led@,
                should_update: true,
                last_update: 0,
            }),
    {
        BatteryState { charge_led, should_update: true, last_update: 0 }
    }

    /// Whether a poll of the charger is due.
    pub fn should_update(&self) -> (due: bool)
        ensures
            due == self@.should_update,
    {
        self.should_update
    }

    /// The charge LED.
    pub fn charge_led(&self) -> (led: &ChargeLed)
        ensures
            led@ == self@.charge_led,
    {
        &self.charge_led
    }

    /// Settles a due poll with what the transfer gave: the status byte, or
    /// `None` if it failed.
    pub fn update_if_needed(&mut self, reading: Option<u8>)
        ensures
            final(self)@ == old(self)@.update(reading),
    {
        if !self.should_update {
            return ;
        }
        self.should_update = false;
        match reading {
            Some(status) => {
                match decode_status(status) {
                    ChargeStatus::Ready => self.charge_led.off(),
                    ChargeStatus::Charging => self.charge_led.blink(),
                    ChargeStatus::Done => self.charge_led.on(),
                    ChargeStatus::Fault => self.charge_led.off(),
                }
            },
            None => {},
        }
    }

    /// One tick.
    pub fn tick(&mut self, tick: u32)
        ensures
            final(self)@ == old(self)@.tick(tick),
    {
        self.charge_led.tick(tick);
        if tick as u64 >= self.last_update as u64 + UPDATE_INTERVAL as u64 {
            self.should_update = true;
            self.last_update = tick;
        }
    }
}

/// The charge state sits in bits 5 and 4 of the status byte and nowhere else:
/// the four values of those bits give the four states, whatever the other
/// bits hold.
pub proof fn lemma_charge_status_bits(status: u8)
    ensures
        status_bits(status) < 4,
        status_bits(status) == status_bits(status & 0x30),
        status & 0x30 == 0x00 <==> charge_status(status) is Ready,
        status & 0x30 == 0x10 <==> charge_status(status) is Charging,
        status & 0x30 == 0x20 <==> charge_status(status) is Done,
        status & 0x30 == 0x30 <==> charge_status(status) is Fault,
{
    assert(((status & 0x30) >> 4) < 4) by (bit_vector);
    assert((status & 0x30) >> 4 == ((status & 0x30) & 0x30) >> 4) by (bit_vector);
    assert((status & 0x30 == 0x00) <==> ((status & 0x30) >> 4 == 0)) by (bit_vector);
    assert((status & 0x30 == 0x10) <==> ((status & 0x30) >> 4 == 1)) by (bit_vector);
    assert((status & 0x30 == 0x20) <==> ((status & 0x30) >> 4 == 2)) by (bit_vector);
    assert((status & 0x30 == 0x30) <==> ((status & 0x30) >> 4 == 3)) by (bit_vector);
}

} // verus!
