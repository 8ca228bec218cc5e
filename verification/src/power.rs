//! The sleep supervisor: when the controller may stop, what it saves before
//! it does, and what it puts back when it wakes.
//!
//! The registers themselves are the caller's business. It reads the clock
//! tree and the GPIO port modes, hands them in, and programs what comes back.

use vstd::prelude::*;

verus! {

/// GPIO port A mode while asleep: all pins analog but PA10, the USB-detect
/// input, which keeps its mode.
pub const GPIOA_SLEEP_MASK: u32 = 0xFFCF_FFFF;

/// GPIO port B mode while asleep: all pins analog but PB0, the button, which
/// keeps its mode.
pub const GPIOB_SLEEP_MASK: u32 = 0xFFFF_FFFC;

/// GPIO port C mode while asleep: all pins analog.
pub const GPIOC_SLEEP_MODE: u32 = 0xFFFF_FFFF;

/// Mode bits of PA10 in the mode register of port A.
pub const GPIOA_WAKE_PINS: u32 = 0x0030_0000;

/// Mode bits of PB0 in the mode register of port B.
pub const GPIOB_WAKE_PINS: u32 = 0x0000_0003;

/// Clock-switch value that selects the high-speed internal oscillator.
pub const SW_HSI: u8 = 0b01;

/// The part of the clock tree that a stop loses.
#[derive(Clone, Copy, Debug, PartialEq, Eq)]
pub struct ClockState {
    /// Clock-switch bits: which clock drives the system.
    pub sw_bits: u8,
    /// Whether the external oscillator is on.
    pub hseon: bool,
    /// Whether the PLL is on.
    pub pllon: bool,
}

/// The mode registers of the three GPIO ports.
#[derive(Clone, Copy, Debug, PartialEq, Eq)]
pub struct GpioModes {
    pub gpioa: u32,
    pub gpiob: u32,
    pub gpioc: u32,
}

/// The mode registers to write back on waking; a port that was never saved
/// is left alone.
#[derive(Clone, Copy, Debug, PartialEq, Eq)]
pub struct GpioRestore {
    pub gpioa: Option<u32>,
    pub gpiob: Option<u32>,
    pub gpioc: Option<u32>,
}

/// One step of going to sleep or of waking up, for the caller to carry out.
#[derive(Clone, Copy, Debug, PartialEq, Eq)]
pub enum SleepStep {
    /// Stop the SysTick counter and its interrupt.
    StopSysTick,
    /// Set the core's sleep-deep bit.
    SetSleepDeep,
    /// Write these values to the mode registers of the three GPIO ports.
    WriteGpioModes(GpioModes),
    /// Select this system clock, and wait until the status shows it.
    SwitchClock(u8),
    /// Have the controller wake up on the internal oscillator.
    WakeOnHsi,
    /// Set up stop mode, with ultra-low power and the regulator in low-power
    /// mode, and clear the wake-up flag.
    ConfigureStop,
    /// Wait until the wake-up flag reads zero.
    AwaitWakeupFlagClear,
    /// Data synchronisation barrier.
    Barrier,
    /// Wait for an interrupt: the controller stops here until one comes.
    WaitForInterrupt,
    /// Write this value to the mode register of GPIO port A.
    RestoreGpioA(u32),
    /// Write this value to the mode register of GPIO port B.
    RestoreGpioB(u32),
    /// Write this value to the mode register of GPIO port C.
    RestoreGpioC(u32),
    /// Switch the external oscillator on, and wait until it is ready.
    StartHse,
    /// Switch the PLL on, and wait until it is ready.
    StartPll,
    /// Start the SysTick counter and its interrupt.
    StartSysTick,
}

/// What the supervisor knows.
pub struct PowerStateView {
    /// The SoC is wanted on.
    pub power_state: bool,
    /// A USB host is attached.
    pub usb_connected: bool,
    /// The clock tree as it was before the last stop.
    pub clocks: ClockState,
    /// The port modes as they were before the last stop.
    pub gpio: GpioRestore,
}

impl PowerStateView {
    /// Nothing wanted, nothing attached, nothing saved.
    pub open spec fn initial() -> Self {
        PowerStateView {
            power_state: false,
            usb_connected: false,
            clocks: ClockState { sw_bits: 0, hseon: false, pllon: false },
            gpio: GpioRestore { gpioa: None, gpiob: None, gpioc: None },
        }
    }

    /// The controller may stop only while the SoC is not wanted on and no USB
    /// host is attached.
    pub open spec fn may_sleep(self) -> bool {
        !self.power_state && !self.usb_connected
    }
}

/// Port modes for the time asleep, given the modes before it.
pub open spec fn sleep_modes(gpio: GpioModes) -> GpioModes {
    GpioModes {
        gpioa: GPIOA_SLEEP_MASK | gpio.gpioa,
        gpiob: GPIOB_SLEEP_MASK | gpio.gpiob,
        gpioc: GPIOC_SLEEP_MODE,
    }
}

/// All three ports saved.
pub open spec fn saved_modes(gpio: GpioModes) -> GpioRestore {
    GpioRestore { gpioa: Some(gpio.gpioa), gpiob: Some(gpio.gpiob), gpioc: Some(gpio.gpioc) }
}

/// State of the sleep supervisor. The firmware has one.
pub struct PowerState {
    power_state: bool,
    usb_connected: bool,
    hseon: bool,
    pllon: bool,
    sw_bits: u8,
    gpioa_mode: Option<u32>,
    gpiob_mode: Option<u32>,
    gpioc_mode: Option<u32>,
}

impl View for PowerState {
    type V = PowerStateView;

    closed spec fn view(&self) -> PowerStateView {
        PowerStateView {
            power_state: self.power_state,
            usb_connected: self.usb_connected,
            clocks: ClockState { sw_bits: self.sw_bits, hseon: self.hseon, pllon: self.pllon },
            gpio: GpioRestore {
                gpioa: self.gpioa_mode,
                gpiob: self.gpiob_mode,
                gpioc: self.gpioc_mode,
            },
        }
    }
}

impl PowerState {
    /// The supervisor at boot.
    pub fn new() -> (power: Self)
        ensures
            power@ == PowerStateView::initial(),
    {
        PowerState {
            power_state: false,
            usb_connected: false,
            hseon: false,
            pllon: false,
            sw_bits: 0,
            gpioa_mode: None,
            gpiob_mode: None,
            gpioc_mode: None,
        }
    }

    /// Whether the SoC is wanted on.
    pub fn power_state(&self) -> (on: bool)
        ensures
            on == self@.power_state,
    {
        self.power_state
    }

    /// Whether a USB host is attached.
    pub fn usb_connected(&self) -> (connected: bool)
        ensures
            connected == self@.usb_connected,
    {
        self.usb_connected
    }
}

/// Records whether the SoC is wanted on.
pub fn set_sleep_power_state(power: &mut PowerState, state: bool)
    ensures
        final(power)@ == (PowerStateView { power_state: state, ..old(power)@ }),
{
    power.power_state = state;
}

/// Records whether a USB host is attached.
pub fn set_usb_connected(power: &mut PowerState, state: bool)
    ensures
        final(power)@ == (PowerStateView { usb_connected: state, ..old(power)@ }),
{
    power.usb_connected = state;
}

/// The steps that lead into a stop, in their order, with `gpio` the port
/// modes before it.
pub open spec fn entry_steps(gpio: GpioModes) -> Seq<SleepStep> {
    seq![
        SleepStep::StopSysTick,
        SleepStep::SetSleepDeep,
        SleepStep::WriteGpioModes(sleep_modes(gpio)),
        SleepStep::SwitchClock(SW_HSI),
        SleepStep::WakeOnHsi,
        SleepStep::ConfigureStop,
        SleepStep::AwaitWakeupFlagClear,
        SleepStep::Barrier,
        SleepStep::WaitForInterrupt,
    ]
}

/// The steps that put the port modes back, in their order: one for each
/// port that was saved.
pub open spec fn gpio_restore_steps(gpio: GpioRestore) -> Seq<SleepStep> {
    (match gpio.gpioa {
        Some(mode) => seq![SleepStep::RestoreGpioA(mode)],
        None => seq![],
    }) + (match gpio.gpiob {
        Some(mode) => seq![SleepStep::RestoreGpioB(mode)],
        None => seq![],
    }) + (match gpio.gpioc {
        Some(mode) => seq![SleepStep::RestoreGpioC(mode)],
        None => seq![],
    })
}

/// The steps that bring the clock tree back, in their order: the external
/// oscillator and the PLL are started if they were on, the system goes back
/// to the clock it ran on, and SysTick runs again.
pub open spec fn clock_restore_steps(clocks: ClockState) -> Seq<SleepStep> {
    (if clocks.hseon {
        seq![SleepStep::StartHse]
    } else {
        seq![]
    }) + (if clocks.pllon {
        seq![SleepStep::StartPll]
    } else {
        seq![]
    }) + seq![SleepStep::SwitchClock(clocks.sw_bits), SleepStep::StartSysTick]
}

/// Decides whether to stop now. `clocks` and `gpio` are the registers as they
/// are.
///
/// While the SoC is wanted on or a USB host is attached the answer is no, and
/// nothing is recorded. Otherwise the registers are saved and the answer is
/// the steps that lead into the stop, to be carried out in their order. When
/// the last of them returns the controller is awake again, and the steps of
/// `wake_gpio_from_sleep` and then of `handle_wakeup` follow.
pub fn sleep_if_needed(power: &mut PowerState, clocks: ClockState, gpio: GpioModes) -> (steps:
    Option<Vec<SleepStep>>)
    ensures
        steps is Some <==> old(power)@.may_sleep(),
        steps is None ==> final(power)@ == old(power)@,
        steps matches Some(entry) ==> {
            &&& entry@ == entry_steps(gpio)
            &&& final(power)@ == (PowerStateView {
                clocks: clocks,
                gpio: saved_modes(gpio),
                ..old(power)@
            })
        },
{
    if power.power_state || power.usb_connected {
        return None;
    }
    power.sw_bits = clocks.sw_bits;
    power.hseon = clocks.hseon;
    power.pllon = clocks.pllon;
    let asleep = prepare_gpio_for_sleep(power, gpio);
    let mut entry: Vec<SleepStep> = Vec::new();
    entry.push(SleepStep::StopSysTick);
    entry.push(SleepStep::SetSleepDeep);
    entry.push(SleepStep::WriteGpioModes(asleep));
    entry.push(SleepStep::SwitchClock(SW_HSI));
    entry.push(SleepStep::WakeOnHsi);
    entry.push(SleepStep::ConfigureStop);
    entry.push(SleepStep::AwaitWakeupFlagClear);
    entry.push(SleepStep::Barrier);
    entry.push(SleepStep::WaitForInterrupt);
    assert(entry@ =~= entry_steps(gpio));
    Some(entry)
}

/// Saves the port modes and gives the modes for the time asleep: every pin
/// analog but the two that wake the controller, which keep their mode.
pub fn prepare_gpio_for_sleep(power: &mut PowerState, gpio: GpioModes) -> (asleep: GpioModes)
    ensures
        asleep == sleep_modes(gpio),
        final(power)@ == (PowerStateView { gpio: saved_modes(gpio), ..old(power)@ }),
{
    power.gpioa_mode = Some(gpio.gpioa);
    power.gpiob_mode = Some(gpio.gpiob);
    power.gpioc_mode = Some(gpio.gpioc);
    GpioModes {
        gpioa: GPIOA_SLEEP_MASK | gpio.gpioa,
        gpiob: GPIOB_SLEEP_MASK | gpio.gpiob,
        gpioc: GPIOC_SLEEP_MODE,
    }
}

/// The first steps after waking: the port modes that were saved are written
/// back.
pub fn wake_gpio_from_sleep(power: &PowerState) -> (steps: Vec<SleepStep>)
    ensures
        steps@ == gpio_restore_steps(power@.gpio),
{
    let mut steps: Vec<SleepStep> = Vec::new();
    if let Some(mode) = power.gpioa_mode {
        steps.push(SleepStep::RestoreGpioA(mode));
    }
    if let Some(mode) = power.gpiob_mode {
        steps.push(SleepStep::RestoreGpioB(mode));
    }
    if let Some(mode) = power.gpioc_mode {
        steps.push(SleepStep::RestoreGpioC(mode));
    }
    assert(steps@ =~= gpio_restore_steps(power@.gpio));
    steps
}

/// The last steps after waking: the clock tree is brought back to what was
/// saved, and SysTick runs again.
pub fn handle_wakeup(power: &PowerState) -> (steps: Vec<SleepStep>)
    ensures
        steps@ == clock_restore_steps(power@.clocks),
{
    let mut steps: Vec<SleepStep> = Vec::new();
    if power.hseon {
        steps.push(SleepStep::StartHse);
    }
    if power.pllon {
        steps.push(SleepStep::StartPll);
    }
    steps.push(SleepStep::SwitchClock(power.sw_bits));
    steps.push(SleepStep::StartSysTick);
    assert(steps@ =~= clock_restore_steps(power@.clocks));
    steps
}

/// Waking undoes the stop. After a stop was decided on with the port modes
/// `gpio` and the clock tree `clocks`, the steps after waking write `gpio`
/// back to the three ports, then select the clock that `clocks` ran on, after
/// the oscillators it needs, and start SysTick last.
pub proof fn lemma_wake_undoes_sleep(before: PowerStateView, clocks: ClockState, gpio: GpioModes)
    ensures
        ({
            let asleep = PowerStateView { clocks: clocks, gpio: saved_modes(gpio), ..before };
            let restore = gpio_restore_steps(asleep.gpio) + clock_restore_steps(asleep.clocks);
            let n = restore.len() as int;
            &&& restore.subrange(0, 3) == seq![
                SleepStep::RestoreGpioA(gpio.gpioa),
                SleepStep::RestoreGpioB(gpio.gpiob),
                SleepStep::RestoreGpioC(gpio.gpioc),
            ]
            &&& n == 5 + if clocks.hseon {
                1int
            } else {
                0int
            } + if clocks.pllon {
                1int
            } else {
                0int
            }
            &&& restore[n - 2] == SleepStep::SwitchClock(clocks.sw_bits)
            &&& restore[n - 1] == SleepStep::StartSysTick
            &&& clocks.hseon ==> restore[3] == SleepStep::StartHse
            &&& clocks.pllon ==> restore[n - 3] == SleepStep::StartPll
        }),
{
    let asleep = PowerStateView { clocks: clocks, gpio: saved_modes(gpio), ..before };
    let restore = gpio_restore_steps(asleep.gpio) + clock_restore_steps(asleep.clocks);
    assert(restore.subrange(0, 3) =~= seq![
        SleepStep::RestoreGpioA(gpio.gpioa),
        SleepStep::RestoreGpioB(gpio.gpiob),
        SleepStep::RestoreGpioC(gpio.gpioc),
    ]);
}

/// While asleep the two wake pins keep the mode they had, and every other pin
/// of the three ports is analog (both mode bits set).
pub proof fn lemma_sleep_modes_keep_wake_pins(gpio: GpioModes)
    ensures
        sleep_modes(gpio).gpioa & GPIOA_WAKE_PINS == gpio.gpioa & GPIOA_WAKE_PINS,
        sleep_modes(gpio).gpioa | GPIOA_WAKE_PINS == 0xFFFF_FFFFu32,
        sleep_modes(gpio).gpiob & GPIOB_WAKE_PINS == gpio.gpiob & GPIOB_WAKE_PINS,
        sleep_modes(gpio).gpiob | GPIOB_WAKE_PINS == 0xFFFF_FFFFu32,
        sleep_modes(gpio).gpioc == 0xFFFF_FFFFu32,
{
    let a = gpio.gpioa;
    let b = gpio.gpiob;
    assert((0xFFCF_FFFFu32 | a) & 0x0030_0000u32 == a & 0x0030_0000u32) by (bit_vector);
    assert((0xFFCF_FFFFu32 | a) | 0x0030_0000u32 == 0xFFFF_FFFFu32) by (bit_vector);
    assert((0xFFFF_FFFCu32 | b) & 0x0000_0003u32 == b & 0x0000_0003u32) by (bit_vector);
    assert((0xFFFF_FFFCu32 | b) | 0x0000_0003u32 == 0xFFFF_FFFFu32) by (bit_vector);
}

} // verus!
