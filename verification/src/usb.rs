//! The USB side: how the device presents itself, what a read from the host
//! counts for, and the cable-detect input.
//!
//! The USB device and its serial port are the caller's. It polls them, reads
//! and writes, and hands in what a read gave.

use vstd::prelude::*;
use crate::power::{set_usb_connected, PowerState, PowerStateView};

verus! {

/// USB vendor id.
pub const USB_VID: u16 = 0x5824;

/// USB product id.
pub const USB_PID: u16 = 0x27dd;

/// Manufacturer string.
pub const USB_MANUFACTURER: &'static str = "craigjb.com";

/// Product string.
pub const USB_PRODUCT: &'static str = "Gameslab";

/// Serial number string.
pub const USB_SERIAL_NUMBER: &'static str = "0.1.1";

/// The most current the device draws from the bus, in mA.
pub const USB_MAX_POWER: usize = 500;

/// How a read from the serial port ended.
#[derive(Clone, Copy, Debug, PartialEq, Eq, Structural)]
pub enum UsbRead {
    /// This many bytes were read.
    Data(usize),
    /// The host has sent nothing.
    WouldBlock,
    /// The port failed.
    Failed,
}

/// The USB side of the controller.
pub struct UsbState {}

impl UsbState {
    /// The USB side at boot. `detect_high` is the level of the cable-detect
    /// input; it tells the sleep supervisor whether a host is attached.
    pub fn new(detect_high: bool, power: &mut PowerState) -> (usb: Self)
        ensures
            final(power)@ == (PowerStateView { usb_connected: detect_high, ..old(power)@ }),
    {
        set_usb_connected(power, detect_high);
        UsbState {  }
    }

    /// The number of bytes that a read from the host gave: none when the host
    /// has sent nothing. A port that failed is not to be handed in.
    pub fn read_usb_data(&mut self, outcome: UsbRead) -> (count: usize)
        requires
            !(outcome is Failed),
        ensures
            count == match outcome {
                UsbRead::Data(n) => n,
                _ => 0,
            },
    {
        match outcome {
            UsbRead::Data(n) => n,
            _ => 0,
        }
    }

    /// An interrupt of the cable-detect line. `pending` is the pending flag of
    /// the line, which the caller clears; `detect_high` is the level of the
    /// input. On a pending edge the sleep supervisor is told whether a host is
    /// attached: the level as it is now, on whichever edge. Without one
    /// nothing changes.
    pub fn handle_detect_interrupt(
        &mut self,
        pending: bool,
        detect_high: bool,
        power: &mut PowerState,
    )
        ensures
            final(power)@ == if pending {
                PowerStateView { usb_connected: detect_high, ..old(power)@ }
            } else {
                old(power)@
            },
    {
        if pending {
            set_usb_connected(power, detect_high);
        }
    }
}

} // verus!
