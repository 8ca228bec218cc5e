//! The two tasks that tie the parts together: the periodic tick and the
//! button.

use vstd::prelude::*;
use crate::battery::BatteryState;
use crate::leds::{StatusLed, STATUS_MAX_DUTY};
use crate::power::{PowerState, PowerStateView};
use crate::switch::{press_accepted, SwitchState};
use crate::zynq::{PowerGood, ZynqState};

verus! {

/// Ticks per second.
pub const TICK_HZ: u32 = 10;

/// The tick, every 100 ms: the counter goes up by one, and the battery
/// monitor and the power sequencer get the new count. `pg` holds the
/// power-good inputs as they are now.
pub fn tick_100ms(tick: &mut u32, battery: &mut BatteryState, zynq: &mut ZynqState, pg: PowerGood)
    requires
        *old(tick) < u32::MAX,
    ensures
        *final(tick) == *old(tick) + 1,
        final(battery)@ == old(battery)@.tick(*final(tick)),
        final(zynq)@ == old(zynq)@.tick(pg),
        final(zynq)@.wf(),
{
    *tick += 1;
    battery.tick(*tick);
    zynq.tick(*tick, pg);
}

/// The button's interrupt. `pending` is the pending flag of its line, which
/// the caller clears. A press toggles the power sequencer, and the status
/// LED is lit if the SoC is then on or on its way up, and dark if not. An
/// edge that is no press changes nothing but the button's own record of it.
pub fn interrupt_exti0_1(
    switch: &mut SwitchState,
    tick: u32,
    pending: bool,
    zynq: &mut ZynqState,
    status_led: &mut StatusLed,
    power: &mut PowerState,
) -> (toggled: bool)
    ensures
        toggled == (pending && press_accepted(old(switch)@, tick)),
        final(switch)@ == if pending {
            tick
        } else {
            old(switch)@
        },
        toggled ==> {
            &&& final(zynq)@ == old(zynq)@.power_toggle()
            &&& final(power)@ == (PowerStateView {
                power_state: !old(zynq)@.state.is_up(),
                ..old(power)@
            })
            &&& final(status_led)@ == if final(zynq)@.state.is_up() {
                STATUS_MAX_DUTY
            } else {
                0
            }
        },
        !toggled ==> {
            &&& final(zynq)@ == old(zynq)@
            &&& final(power)@ == old(power)@
            &&& final(status_led)@ == old(status_led)@
        },
{
    let toggled = switch.was_toggled(tick, pending);
    if toggled {
        zynq.power_toggle(power);
        if zynq.is_power_on() {
            status_led.on();
        } else {
            status_led.off();
        }
    }
    toggled
}

} // verus!
