//! Verified core of the Gameslab companion controller.
//!
//! The controller sequences the supply rails of the SoC, shows the state of
//! the battery charger on an LED, bridges the SoC's console UART to USB, and
//! stops itself while nothing needs it. This crate holds what the controller
//! decides, as functions on plain values. It touches no peripheral: the
//! firmware around it reads the inputs, calls in, and drives the outputs.

pub mod battery;
pub mod leds;
pub mod power;
pub mod queue;
pub mod switch;
pub mod tasks;
pub mod uart;
pub mod usb;
pub mod zynq;
