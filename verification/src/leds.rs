//! The two indicator LEDs: the duty that each PWM channel is to run at.
//!
//! Nothing here touches a timer. Each LED records the duty it was last told
//! to show; the caller programs that duty into its PWM channel.

use vstd::prelude::*;

verus! {

/// Carrier frequency of both PWM channels, in kHz.
pub const PWM_FREQUENCY_KHZ: u32 = 10;

/// Duty of the charge LED when it is solidly on.
pub const BLINK_MAX_DUTY: u16 = 600;

/// Duty of the charge LED at the dark end of a breath.
pub const BLINK_MIN_DUTY: u16 = 20;

/// Duty of the status LED when it is on.
pub const STATUS_MAX_DUTY: u16 = 400;

/// Index of the brightest step of a breath.
pub const BLINK_TOP: usize = 28;

/// The breathing curve: what is added to `BLINK_MIN_DUTY` at each step.
pub const BLINK_DUTY_TABLE: [u16; 29] = [
    0, 1, 1, 1, 2, 3, 4, 5, 6, 8, 10, 13, 16, 21, 26, 32, 41, 51, 64, 80, 99, 124, 154, 193, 240,
    299, 373, 465, 579,
];

/// The status LED: on or off.
pub struct StatusLed {
    duty: u16,
}

impl View for StatusLed {
    type V = u16;

    /// The duty the LED is to show.
    closed spec fn view(&self) -> u16 {
        self.duty
    }
}

impl StatusLed {
    /// The duty the LED is to show.
    pub fn duty(&self) -> (d: u16)
        ensures
            d == self@,
    {
        self.duty
    }

    /// Lights the LED.
    pub fn on(&mut self)
        ensures
            final(self)@ == STATUS_MAX_DUTY,
    {
        self.duty = STATUS_MAX_DUTY;
    }

    /// Turns the LED dark.
    pub fn off(&mut self)
        ensures
            final(self)@ == 0,
    {
        self.duty = 0;
    }
}

/// What a charge LED is doing.
pub struct ChargeLedView {
    /// The duty the LED is to show.
    pub duty: u16,
    /// Whether the LED is breathing.
    pub blinking: bool,
    /// Whether the breath is on its way up.
    pub blinking_up: bool,
    /// Step of the breathing curve that was shown last.
    pub blink_index: usize,
}

impl ChargeLedView {
    /// The direction agrees with the step, so that the next step stays on the
    /// curve, and a breathing LED shows the duty of its step.
    pub open spec fn wf(self) -> bool {
        &&& self.blink_index <= BLINK_TOP
        &&& self.blinking_up ==> self.blink_index < BLINK_TOP
        &&& !self.blinking_up ==> self.blink_index > 0
        &&& self.blinking ==> self.duty == BLINK_MIN_DUTY + BLINK_DUTY_TABLE[self.blink_index as int]
    }

    /// An LED that is dark and has never breathed.
    pub open spec fn initial() -> Self {
        ChargeLedView { duty: 0, blinking: false, blinking_up: true, blink_index: 0 }
    }

    /// Solidly on.
    pub open spec fn on(self) -> Self {
        ChargeLedView { duty: BLINK_MAX_DUTY, blinking: false, ..self }
    }

    /// Dark.
    pub open spec fn off(self) -> Self {
        ChargeLedView { duty: 0, blinking: false, ..self }
    }

    /// Starts a breath at the dark end, unless one is under way.
    pub open spec fn blink(self) -> Self {
        if self.blinking {
            self
        } else {
            ChargeLedView { duty: BLINK_MIN_DUTY, blinking: true, blinking_up: true, blink_index: 0 }
        }
    }

    /// One tick later: a breathing LED moves one step along the curve and
    /// turns round at either end; any other LED stays as it is.
    pub open spec fn tick(self) -> Self {
        if !self.blinking {
            self
        } else {
            let index = if self.blinking_up {
                self.blink_index + 1
            } else {
                self.blink_index - 1
            };
            let up = if self.blinking_up {
                index < BLINK_TOP
            } else {
                index == 0
            };
            ChargeLedView {
                duty: (BLINK_MIN_DUTY + BLINK_DUTY_TABLE[index]) as u16,
                blinking: true,
                blinking_up: up,
                blink_index: index as usize,
            }
        }
    }

    /// `n` ticks later.
    pub open spec fn ticks(self, n: nat) -> Self
        decreases n,
    {
        if n == 0 {
            self
        } else {
            self.ticks((n - 1) as nat).tick()
        }
    }
}

/// Step of the breathing curve `n` ticks after a breath began: up from 0 to
/// 28 and down again, once every 56 ticks, with each end shown once.
pub open spec fn breath_index(n: nat) -> int {
    let phase = n % 56;
    if phase <= 28 {
        phase as int
    } else {
        56 - phase
    }
}

/// The charge LED: dark, solidly on, or breathing.
pub struct ChargeLed {
    duty: u16,
    blinking: bool,
    blinking_up: bool,
    blink_index: usize,
}

impl View for ChargeLed {
    type V = ChargeLedView;

    closed spec fn view(&self) -> ChargeLedView {
        ChargeLedView {
            duty: self.duty,
            blinking: self.blinking,
            blinking_up: self.blinking_up,
            blink_index: self.blink_index,
        }
    }
}

impl ChargeLed {
    #[verifier::type_invariant]
    spec fn inv(&self) -> bool {
        self@.wf()
    }

    /// The duty the LED is to show.
    pub fn duty(&self) -> (d: u16)
        ensures
            d == self@.duty,
            self@.wf(),
    {
        proof {
            use_type_invariant(self);
        }
        self.duty
    }

    /// Whether the LED is breathing.
    pub fn is_blinking(&self) -> (b: bool)
        ensures
            b == self@.blinking,
            self@.wf(),
    {
        proof {
            use_type_invariant(self);
        }
        self.blinking
    }

    /// Lights the LED solidly; a breath that was under way ends.
    pub fn on(&mut self)
        ensures
            final(self)@ == old(self)@.on(),
            final(self)@.wf(),
    {
        proof {
            use_type_invariant(&*self);
        }
        *self = ChargeLed {
            duty: BLINK_MAX_DUTY,
            blinking: false,
            blinking_up: self.blinking_up,
            blink_index: self.blink_index,
        };
    }

    /// Turns the LED dark; a breath that was under way ends.
    pub fn off(&mut self)
        ensures
            final(self)@ == old(self)@.off(),
            final(self)@.wf(),
    {
        proof {
            use_type_invariant(&*self);
        }
        *self = ChargeLed {
            duty: 0,
            blinking: false,
            blinking_up: self.blinking_up,
            blink_index: self.blink_index,
        };
    }

    /// Starts the LED breathing from the dark end. On an LED that is already
    /// breathing this changes nothing: the breath is not started over.
    pub fn blink(&mut self)
        ensures
            final(self)@ == old(self)@.blink(),
            old(self)@.blinking ==> final(self)@ == old(self)@,
            final(self)@.wf(),
    {
        proof {
            use_type_invariant(&*self);
        }
        if !self.blinking {
            *self = ChargeLed {
                duty: BLINK_MIN_DUTY,
                blinking: true,
                blinking_up: true,
                blink_index: 0,
            };
        }
    }

    /// Moves a breathing LED one step along the curve.
    pub fn tick(&mut self, now: u32)
        ensures
            final(self)@ == old(self)@.tick(),
            final(self)@.wf(),
    {
        proof {
            use_type_invariant(&*self);
        }
        if !self.blinking {
            return ;
        }
        let mut index = self.blink_index;
        let mut up = self.blinking_up;
        if up {
            index += 1;
            if index >= BLINK_DUTY_TABLE.len() - 1 {
                up = false;
            }
        } else {
            index -= 1;
            if index == 0 {
                up = true;
            }
        }
        let duty = BLINK_DUTY_TABLE[index];
        *self = ChargeLed {
            duty: BLINK_MIN_DUTY + duty,
            blinking: true,
            blinking_up: up,
            blink_index: index,
        };
    }
}

/// The two LEDs as they are after power-on: both dark.
pub fn create_leds() -> (leds: (StatusLed, ChargeLed))
    ensures
        leds.0@ == 0,
        leds.1@ == ChargeLedView::initial(),
        leds.1@.wf(),
{
    (
        StatusLed { duty: 0 },
        ChargeLed { duty: 0, blinking: false, blinking_up: true, blink_index: 0 },
    )
}

/// A tick keeps a well-formed LED well formed.
pub proof fn lemma_tick_wf(led: ChargeLedView)
    requires
        led.wf(),
    ensures
        led.tick().wf(),
{
}

/// The shape of a breath. `n` ticks after `blink()` has started a breath, the
/// LED shows `BLINK_MIN_DUTY` plus the table's entry at `breath_index(n)`:
/// the table up from its first entry to its last, then down again to the
/// first, and so on, every entry at the turn shown once.
pub proof fn lemma_breathing_shape(led: ChargeLedView, n: nat)
    requires
        led.wf(),
        !led.blinking,
    ensures
        led.blink().ticks(n).wf(),
        led.blink().ticks(n).blinking,
        led.blink().ticks(n).blink_index == breath_index(n),
        led.blink().ticks(n).blinking_up == (n % 56 < 28),
        led.blink().ticks(n).duty == BLINK_MIN_DUTY + BLINK_DUTY_TABLE[breath_index(n)],
    decreases n,
{
    if n > 0 {
        let before = led.blink().ticks((n - 1) as nat);
        lemma_breathing_shape(led, (n - 1) as nat);
        lemma_tick_wf(before);
        assert(led.blink().ticks(n) == before.tick());
    }
}

} // verus!
